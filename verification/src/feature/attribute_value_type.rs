//! The closed code-list of value types a simple attribute may take.

use crate::error::{reflects, ErrorView, S100Error};
use vstd::prelude::*;

verus! {

/// The value type of a simple attribute, one of a closed set.
#[derive(Clone, Copy, Debug, Eq, PartialEq, Structural)]
pub enum AttributeValueType {
    Boolean,
    Enumeration,
    Integer,
    Real,
    Text,
    Date,
    Time,
    DateTime,
    TruncatedDate,
    Uri,
    Url,
    Urn,
}

impl View for AttributeValueType {
    type V = AttributeValueType;

    open spec fn view(&self) -> AttributeValueType {
        *self
    }
}

impl DeepView for AttributeValueType {
    type V = AttributeValueType;

    open spec fn deep_view(&self) -> AttributeValueType {
        *self
    }
}

/// The decoding table of the `valueType` code-list: a case-sensitive, exact
/// match against the literal strings below, with no normalization and no
/// fallback variant; any other string is rejected as `InvalidEnum`.
pub open spec fn spec_decode_value_type(s: Seq<char>) -> Result<AttributeValueType, ErrorView> {
    if s == "boolean"@ {
        Ok(AttributeValueType::Boolean)
    } else if s == "enumeration"@ {
        Ok(AttributeValueType::Enumeration)
    } else if s == "integer"@ {
        Ok(AttributeValueType::Integer)
    } else if s == "real"@ {
        Ok(AttributeValueType::Real)
    } else if s == "text"@ {
        Ok(AttributeValueType::Text)
    } else if s == "date"@ {
        Ok(AttributeValueType::Date)
    } else if s == "time"@ {
        Ok(AttributeValueType::Time)
    } else if s == "dateTime"@ {
        Ok(AttributeValueType::DateTime)
    } else if s == "S100_TruncatedDate"@ {
        Ok(AttributeValueType::TruncatedDate)
    } else if s == "URI"@ {
        Ok(AttributeValueType::Uri)
    } else if s == "URL"@ {
        Ok(AttributeValueType::Url)
    } else if s == "URN"@ {
        Ok(AttributeValueType::Urn)
    } else {
        Err(ErrorView::InvalidEnum { field: "valueType"@, value: s })
    }
}

/// Decoding fails exactly on the strings outside the table, and the error
/// names the field and the received string.
pub proof fn lemma_decode_value_type_total(s: Seq<char>)
    ensures
        spec_decode_value_type(s) is Err <==> !(s == "boolean"@ || s == "enumeration"@ || s
            == "integer"@ || s == "real"@ || s == "text"@ || s == "date"@ || s == "dateTime"@ || s
            == "S100_TruncatedDate"@ || s == "time"@ || s == "URI"@ || s == "URL"@ || s == "URN"@),
        spec_decode_value_type(s) is Err ==> spec_decode_value_type(s) == Err::<
            AttributeValueType,
            ErrorView,
        >(ErrorView::InvalidEnum { field: "valueType"@, value: s }),
{
}

impl AttributeValueType {
    /// Decodes one string of the `valueType` code-list.
    pub fn from_str(input: &str) -> (r: Result<AttributeValueType, S100Error>)
        ensures
            reflects::<AttributeValueType>(r, spec_decode_value_type(input@)),
    {
        if crate::str_eq(input, "boolean") {
            Ok(AttributeValueType::Boolean)
        } else if crate::str_eq(input, "enumeration") {
            Ok(AttributeValueType::Enumeration)
        } else if crate::str_eq(input, "integer") {
            Ok(AttributeValueType::Integer)
        } else if crate::str_eq(input, "real") {
            Ok(AttributeValueType::Real)
        } else if crate::str_eq(input, "text") {
            Ok(AttributeValueType::Text)
        } else if crate::str_eq(input, "date") {
            Ok(AttributeValueType::Date)
        } else if crate::str_eq(input, "time") {
            Ok(AttributeValueType::Time)
        } else if crate::str_eq(input, "dateTime") {
            Ok(AttributeValueType::DateTime)
        } else if crate::str_eq(input, "S100_TruncatedDate") {
            Ok(AttributeValueType::TruncatedDate)
        } else if crate::str_eq(input, "URI") {
            Ok(AttributeValueType::Uri)
        } else if crate::str_eq(input, "URL") {
            Ok(AttributeValueType::Url)
        } else if crate::str_eq(input, "URN") {
            Ok(AttributeValueType::Urn)
        } else {
            Err(S100Error::InvalidEnum { field: "valueType".to_owned(), value: input.to_owned() })
        }
    }
}

} // verus!
