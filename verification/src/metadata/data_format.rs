//! The closed code-list of data formats a dataset may be encoded in.

use crate::error::{reflects, ErrorView, S100Error};
use vstd::prelude::*;

verus! {

/// The encoding format of a dataset file.
#[derive(Clone, Copy, Debug, Eq, PartialEq, Structural)]
pub enum DataFormat {
    ISO8211,
    GML,
    HDF5,
    Undefined,
}

impl View for DataFormat {
    type V = DataFormat;

    open spec fn view(&self) -> DataFormat {
        *self
    }
}

impl DeepView for DataFormat {
    type V = DataFormat;

    open spec fn deep_view(&self) -> DataFormat {
        *self
    }
}

/// The decoding table of the `dataFormat` code-list: exact, case-sensitive
/// matches only; any other string is rejected as `InvalidEnum`.
pub open spec fn spec_decode_data_format(s: Seq<char>) -> Result<DataFormat, ErrorView> {
    if s == "ISO/IEC 8211"@ {
        Ok(DataFormat::ISO8211)
    } else if s == "GML"@ {
        Ok(DataFormat::GML)
    } else if s == "HDF5"@ {
        Ok(DataFormat::HDF5)
    } else if s == "undefined"@ {
        Ok(DataFormat::Undefined)
    } else {
        Err(ErrorView::InvalidEnum { field: "dataFormat"@, value: s })
    }
}

/// Decoding fails exactly on the strings outside the table, and the error
/// names the field and the received string.
pub proof fn lemma_decode_data_format_total(s: Seq<char>)
    ensures
        spec_decode_data_format(s) is Err <==> !(s == "ISO/IEC 8211"@ || s == "GML"@ || s
            == "HDF5"@ || s == "undefined"@),
        spec_decode_data_format(s) is Err ==> spec_decode_data_format(s) == Err::<
            DataFormat,
            ErrorView,
        >(ErrorView::InvalidEnum { field: "dataFormat"@, value: s }),
{
}

impl DataFormat {
    /// Decodes one string of the `dataFormat` code-list.
    pub fn from_str(input: &str) -> (r: Result<DataFormat, S100Error>)
        ensures
            reflects::<DataFormat>(r, spec_decode_data_format(input@)),
    {
        if crate::str_eq(input, "ISO/IEC 8211") {
            Ok(DataFormat::ISO8211)
        } else if crate::str_eq(input, "GML") {
            Ok(DataFormat::GML)
        } else if crate::str_eq(input, "HDF5") {
            Ok(DataFormat::HDF5)
        } else if crate::str_eq(input, "undefined") {
            Ok(DataFormat::Undefined)
        } else {
            Err(S100Error::InvalidEnum { field: "dataFormat".to_owned(), value: input.to_owned() })
        }
    }
}

} // verus!
