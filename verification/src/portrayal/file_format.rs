//! The closed code-list of formats an external portrayal file may be
//! written in.

use crate::error::{reflects, ErrorView, S100Error};
use vstd::prelude::*;

verus! {

/// The format of an external file a catalogue item references.
#[derive(Clone, Copy, Debug, Eq, PartialEq, Structural)]
pub enum FileFormat {
    Xml,
    Svg,
    Xslt,
    Ttf,
    Lua,
}

impl View for FileFormat {
    type V = FileFormat;

    open spec fn view(&self) -> FileFormat {
        *self
    }
}

impl DeepView for FileFormat {
    type V = FileFormat;

    open spec fn deep_view(&self) -> FileFormat {
        *self
    }
}

/// The decoding table of the `fileFormat` code-list: exact, case-sensitive
/// matches only; any other string is rejected as `InvalidEnum`.
pub open spec fn spec_decode_file_format(s: Seq<char>) -> Result<FileFormat, ErrorView> {
    if s == "XML"@ {
        Ok(FileFormat::Xml)
    } else if s == "SVG"@ {
        Ok(FileFormat::Svg)
    } else if s == "XSLT"@ {
        Ok(FileFormat::Xslt)
    } else if s == "TTF"@ {
        Ok(FileFormat::Ttf)
    } else if s == "LUA"@ {
        Ok(FileFormat::Lua)
    } else {
        Err(ErrorView::InvalidEnum { field: "fileFormat"@, value: s })
    }
}

/// Decoding fails exactly on the strings outside the table, and the error
/// names the field and the received string.
pub proof fn lemma_decode_file_format_total(s: Seq<char>)
    ensures
        spec_decode_file_format(s) is Err <==> !(s == "XML"@ || s == "SVG"@ || s == "XSLT"@ || s
            == "TTF"@ || s == "LUA"@),
        spec_decode_file_format(s) is Err ==> spec_decode_file_format(s) == Err::<
            FileFormat,
            ErrorView,
        >(ErrorView::InvalidEnum { field: "fileFormat"@, value: s }),
{
}

impl FileFormat {
    /// Decodes one string of the `fileFormat` code-list.
    pub fn from_str(input: &str) -> (r: Result<FileFormat, S100Error>)
        ensures
            reflects::<FileFormat>(r, spec_decode_file_format(input@)),
    {
        if crate::str_eq(input, "XML") {
            Ok(FileFormat::Xml)
        } else if crate::str_eq(input, "SVG") {
            Ok(FileFormat::Svg)
        } else if crate::str_eq(input, "XSLT") {
            Ok(FileFormat::Xslt)
        } else if crate::str_eq(input, "TTF") {
            Ok(FileFormat::Ttf)
        } else if crate::str_eq(input, "LUA") {
            Ok(FileFormat::Lua)
        } else {
            Err(S100Error::InvalidEnum { field: "fileFormat".to_owned(), value: input.to_owned() })
        }
    }
}

} // verus!
