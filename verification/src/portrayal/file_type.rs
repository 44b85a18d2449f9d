//! The closed code-list of external file kinds a portrayal item may point
//! at.

use crate::error::{reflects, ErrorView, S100Error};
use vstd::prelude::*;

verus! {

/// The kind of external file a catalogue item references.
#[derive(Clone, Copy, Debug, Eq, PartialEq, Structural)]
pub enum FileType {
    AlertCatalog,
    AreaFill,
    ColorProfile,
    Font,
    LineStyle,
    Pixmap,
    Rule,
    StyleSheet,
    Symbol,
}

impl View for FileType {
    type V = FileType;

    open spec fn view(&self) -> FileType {
        *self
    }
}

impl DeepView for FileType {
    type V = FileType;

    open spec fn deep_view(&self) -> FileType {
        *self
    }
}

/// The decoding table of the `fileType` code-list: exact, case-sensitive
/// matches only; any other string is rejected as `InvalidEnum`.
pub open spec fn spec_decode_file_type(s: Seq<char>) -> Result<FileType, ErrorView> {
    if s == "Font"@ {
        Ok(FileType::Font)
    } else if s == "AlertCatalog"@ {
        Ok(FileType::AlertCatalog)
    } else if s == "AreaFill"@ {
        Ok(FileType::AreaFill)
    } else if s == "LineStyle"@ {
        Ok(FileType::LineStyle)
    } else if s == "Symbol"@ {
        Ok(FileType::Symbol)
    } else if s == "ColorProfile"@ {
        Ok(FileType::ColorProfile)
    } else if s == "Pixmap"@ {
        Ok(FileType::Pixmap)
    } else if s == "Rule"@ {
        Ok(FileType::Rule)
    } else if s == "StyleSheet"@ {
        Ok(FileType::StyleSheet)
    } else {
        Err(ErrorView::InvalidEnum { field: "fileType"@, value: s })
    }
}

/// Decoding fails exactly on the strings outside the table, and the error
/// names the field and the received string.
pub proof fn lemma_decode_file_type_total(s: Seq<char>)
    ensures
        spec_decode_file_type(s) is Err <==> !(s == "Font"@ || s == "AlertCatalog"@ || s
            == "AreaFill"@ || s == "LineStyle"@ || s == "Symbol"@ || s == "ColorProfile"@ || s
            == "Pixmap"@ || s == "Rule"@ || s == "StyleSheet"@),
        spec_decode_file_type(s) is Err ==> spec_decode_file_type(s) == Err::<
            FileType,
            ErrorView,
        >(ErrorView::InvalidEnum { field: "fileType"@, value: s }),
{
}

impl FileType {
    /// Decodes one string of the `fileType` code-list.
    pub fn from_str(input: &str) -> (r: Result<FileType, S100Error>)
        ensures
            reflects::<FileType>(r, spec_decode_file_type(input@)),
    {
        if crate::str_eq(input, "Font") {
            Ok(FileType::Font)
        } else if crate::str_eq(input, "AlertCatalog") {
            Ok(FileType::AlertCatalog)
        } else if crate::str_eq(input, "AreaFill") {
            Ok(FileType::AreaFill)
        } else if crate::str_eq(input, "LineStyle") {
            Ok(FileType::LineStyle)
        } else if crate::str_eq(input, "Symbol") {
            Ok(FileType::Symbol)
        } else if crate::str_eq(input, "ColorProfile") {
            Ok(FileType::ColorProfile)
        } else if crate::str_eq(input, "Pixmap") {
            Ok(FileType::Pixmap)
        } else if crate::str_eq(input, "Rule") {
            Ok(FileType::Rule)
        } else if crate::str_eq(input, "StyleSheet") {
            Ok(FileType::StyleSheet)
        } else {
            Err(S100Error::InvalidEnum { field: "fileType".to_owned(), value: input.to_owned() })
        }
    }
}

} // verus!
