//! Enumerations of the `camera_info.distortion` messages of the schema.
use vstd::prelude::*;

use crate::text::str_eq;

verus! {

#[derive(Debug, Clone, Copy, PartialEq, Eq, Structural)]
pub enum DistortionModelType {
    PlumbBob,
    RationalPolynomial,
    Equidistant,
}

pub open spec fn distortion_model_type_variant_name(v: DistortionModelType) -> Seq<char> {
    match v {
        DistortionModelType::PlumbBob => "PLUMB_BOB"@,
        DistortionModelType::RationalPolynomial => "RATIONAL_POLYNOMIAL"@,
        DistortionModelType::Equidistant => "EQUIDISTANT"@,
    }
}

pub open spec fn distortion_model_type_from_variant_name(s: Seq<char>) -> Option<DistortionModelType> {
    if s == "PLUMB_BOB"@ {
        Some(DistortionModelType::PlumbBob)
    } else if s == "RATIONAL_POLYNOMIAL"@ {
        Some(DistortionModelType::RationalPolynomial)
    } else if s == "EQUIDISTANT"@ {
        Some(DistortionModelType::Equidistant)
    } else {
        None
    }
}

impl DistortionModelType {
    /// The name of the variant in the message schema.
    pub fn as_str_name(&self) -> (r: &'static str)
        ensures
            r@ == distortion_model_type_variant_name(*self),
    {
        match self {
            DistortionModelType::PlumbBob => "PLUMB_BOB",
            DistortionModelType::RationalPolynomial => "RATIONAL_POLYNOMIAL",
            DistortionModelType::Equidistant => "EQUIDISTANT",
        }
    }

    /// The variant with the given schema name.
    pub fn from_str_name(value: &str) -> (r: Option<Self>)
        ensures
            r == distortion_model_type_from_variant_name(value@),
    {
        if str_eq(value, "PLUMB_BOB") {
            Some(DistortionModelType::PlumbBob)
        } else if str_eq(value, "RATIONAL_POLYNOMIAL") {
            Some(DistortionModelType::RationalPolynomial)
        } else if str_eq(value, "EQUIDISTANT") {
            Some(DistortionModelType::Equidistant)
        } else {
            None
        }
    }
}
} // verus!
