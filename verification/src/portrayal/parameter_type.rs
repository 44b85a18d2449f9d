//! The closed code-list of value types a portrayal parameter may take.

use crate::error::{reflects, ErrorView, S100Error};
use vstd::prelude::*;

verus! {

/// The value type of a portrayal parameter.
#[derive(Clone, Copy, Debug, Eq, PartialEq, Structural)]
pub enum ParameterType {
    Boolean,
    Integer,
    Double,
    Text,
    Date,
}

impl View for ParameterType {
    type V = ParameterType;

    open spec fn view(&self) -> ParameterType {
        *self
    }
}

impl DeepView for ParameterType {
    type V = ParameterType;

    open spec fn deep_view(&self) -> ParameterType {
        *self
    }
}

/// The decoding table of the parameter `type` code-list: exact,
/// case-sensitive matches only; any other string is rejected as
/// `InvalidEnum`.
pub open spec fn spec_decode_parameter_type(s: Seq<char>) -> Result<ParameterType, ErrorView> {
    if s == "Boolean"@ {
        Ok(ParameterType::Boolean)
    } else if s == "Integer"@ {
        Ok(ParameterType::Integer)
    } else if s == "Double"@ {
        Ok(ParameterType::Double)
    } else if s == "String"@ {
        Ok(ParameterType::Text)
    } else if s == "Date"@ {
        Ok(ParameterType::Date)
    } else {
        Err(ErrorView::InvalidEnum { field: "type"@, value: s })
    }
}

/// Decoding fails exactly on the strings outside the table, and the error
/// names the field and the received string.
pub proof fn lemma_decode_parameter_type_total(s: Seq<char>)
    ensures
        spec_decode_parameter_type(s) is Err <==> !(s == "Boolean"@ || s == "Integer"@ || s
            == "Double"@ || s == "String"@ || s == "Date"@),
        spec_decode_parameter_type(s) is Err ==> spec_decode_parameter_type(s) == Err::<
            ParameterType,
            ErrorView,
        >(ErrorView::InvalidEnum { field: "type"@, value: s }),
{
}

impl ParameterType {
    /// Decodes one string of the parameter `type` code-list.
    pub fn from_str(input: &str) -> (r: Result<ParameterType, S100Error>)
        ensures
            reflects::<ParameterType>(r, spec_decode_parameter_type(input@)),
    {
        if crate::str_eq(input, "Boolean") {
            Ok(ParameterType::Boolean)
        } else if crate::str_eq(input, "Integer") {
            Ok(ParameterType::Integer)
        } else if crate::str_eq(input, "Double") {
            Ok(ParameterType::Double)
        } else if crate::str_eq(input, "String") {
            Ok(ParameterType::Text)
        } else if crate::str_eq(input, "Date") {
            Ok(ParameterType::Date)
        } else {
            Err(S100Error::InvalidEnum { field: "type".to_owned(), value: input.to_owned() })
        }
    }
}

} // verus!
