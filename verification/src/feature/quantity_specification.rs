//! The closed code-list of quantity kinds a simple attribute may measure.

use crate::error::{reflects, ErrorView, S100Error};
use vstd::prelude::*;

verus! {

/// The kind of physical quantity a numeric attribute measures.
#[derive(Clone, Copy, Debug, Eq, PartialEq, Structural)]
pub enum QuantitySpecification {
    AngularVelocity,
    Area,
    Density,
    Duration,
    Frequency,
    Length,
    Mass,
    PlaneAngle,
    Power,
    Pressure,
    Salinity,
    Speed,
    Temperature,
    Volume,
    Weight,
    OtherQuantity,
}

impl View for QuantitySpecification {
    type V = QuantitySpecification;

    open spec fn view(&self) -> QuantitySpecification {
        *self
    }
}

impl DeepView for QuantitySpecification {
    type V = QuantitySpecification;

    open spec fn deep_view(&self) -> QuantitySpecification {
        *self
    }
}

/// The decoding table of the `quantitySpecification` code-list: exact,
/// case-sensitive matches only; any other string is rejected as
/// `InvalidEnum`.
pub open spec fn spec_decode_quantity(s: Seq<char>) -> Result<QuantitySpecification, ErrorView> {
    if s == "angularVelocity"@ {
        Ok(QuantitySpecification::AngularVelocity)
    } else if s == "area"@ {
        Ok(QuantitySpecification::Area)
    } else if s == "density"@ {
        Ok(QuantitySpecification::Density)
    } else if s == "duration"@ {
        Ok(QuantitySpecification::Duration)
    } else if s == "frequency"@ {
        Ok(QuantitySpecification::Frequency)
    } else if s == "length"@ {
        Ok(QuantitySpecification::Length)
    } else if s == "mass"@ {
        Ok(QuantitySpecification::Mass)
    } else if s == "planeAngle"@ {
        Ok(QuantitySpecification::PlaneAngle)
    } else if s == "power"@ {
        Ok(QuantitySpecification::Power)
    } else if s == "pressure"@ {
        Ok(QuantitySpecification::Pressure)
    } else if s == "salinity"@ {
        Ok(QuantitySpecification::Salinity)
    } else if s == "speed"@ {
        Ok(QuantitySpecification::Speed)
    } else if s == "temperature"@ {
        Ok(QuantitySpecification::Temperature)
    } else if s == "volume"@ {
        Ok(QuantitySpecification::Volume)
    } else if s == "weight"@ {
        Ok(QuantitySpecification::Weight)
    } else if s == "otherQuantity"@ {
        Ok(QuantitySpecification::OtherQuantity)
    } else {
        Err(ErrorView::InvalidEnum { field: "quantitySpecification"@, value: s })
    }
}

/// Decoding fails exactly on the strings outside the table, and the error
/// names the field and the received string.
pub proof fn lemma_decode_quantity_total(s: Seq<char>)
    ensures
        spec_decode_quantity(s) is Err <==> !(s == "angularVelocity"@ || s == "area"@ || s
            == "density"@ || s == "duration"@ || s == "frequency"@ || s == "length"@ || s
            == "mass"@ || s == "planeAngle"@ || s == "power"@ || s == "pressure"@ || s
            == "salinity"@ || s == "speed"@ || s == "temperature"@ || s == "volume"@ || s
            == "weight"@ || s == "otherQuantity"@),
        spec_decode_quantity(s) is Err ==> spec_decode_quantity(s) == Err::<
            QuantitySpecification,
            ErrorView,
        >(ErrorView::InvalidEnum { field: "quantitySpecification"@, value: s }),
{
}

impl QuantitySpecification {
    /// Decodes one string of the `quantitySpecification` code-list.
    pub fn from_str(input: &str) -> (r: Result<QuantitySpecification, S100Error>)
        ensures
            reflects::<QuantitySpecification>(r, spec_decode_quantity(input@)),
    {
        if crate::str_eq(input, "angularVelocity") {
            Ok(QuantitySpecification::AngularVelocity)
        } else if crate::str_eq(input, "area") {
            Ok(QuantitySpecification::Area)
        } else if crate::str_eq(input, "density") {
            Ok(QuantitySpecification::Density)
        } else if crate::str_eq(input, "duration") {
            Ok(QuantitySpecification::Duration)
        } else if crate::str_eq(input, "frequency") {
            Ok(QuantitySpecification::Frequency)
        } else if crate::str_eq(input, "length") {
            Ok(QuantitySpecification::Length)
        } else if crate::str_eq(input, "mass") {
            Ok(QuantitySpecification::Mass)
        } else if crate::str_eq(input, "planeAngle") {
            Ok(QuantitySpecification::PlaneAngle)
        } else if crate::str_eq(input, "power") {
            Ok(QuantitySpecification::Power)
        } else if crate::str_eq(input, "pressure") {
            Ok(QuantitySpecification::Pressure)
        } else if crate::str_eq(input, "salinity") {
            Ok(QuantitySpecification::Salinity)
        } else if crate::str_eq(input, "speed") {
            Ok(QuantitySpecification::Speed)
        } else if crate::str_eq(input, "temperature") {
            Ok(QuantitySpecification::Temperature)
        } else if crate::str_eq(input, "volume") {
            Ok(QuantitySpecification::Volume)
        } else if crate::str_eq(input, "weight") {
            Ok(QuantitySpecification::Weight)
        } else if crate::str_eq(input, "otherQuantity") {
            Ok(QuantitySpecification::OtherQuantity)
        } else {
            Err(
                S100Error::InvalidEnum {
                    field: "quantitySpecification".to_owned(),
                    value: input.to_owned(),
                },
            )
        }
    }
}

} // verus!
