//! Enumerations of the `sensor_noise` messages of the schema.
use vstd::prelude::*;

use crate::text::str_eq;

verus! {

#[derive(Debug, Clone, Copy, PartialEq, Eq, Structural)]
pub enum Type {
    NoValue,
    Gaussian,
    GaussianQuantized,
}

pub open spec fn type_variant_name(v: Type) -> Seq<char> {
    match v {
        Type::NoValue => "NONE"@,
        Type::Gaussian => "GAUSSIAN"@,
        Type::GaussianQuantized => "GAUSSIAN_QUANTIZED"@,
    }
}

pub open spec fn type_from_variant_name(s: Seq<char>) -> Option<Type> {
    if s == "NONE"@ {
        Some(Type::NoValue)
    } else if s == "GAUSSIAN"@ {
        Some(Type::Gaussian)
    } else if s == "GAUSSIAN_QUANTIZED"@ {
        Some(Type::GaussianQuantized)
    } else {
        None
    }
}

impl Type {
    /// The name of the variant in the message schema.
    pub fn as_str_name(&self) -> (r: &'static str)
        ensures
            r@ == type_variant_name(*self),
    {
        match self {
            Type::NoValue => "NONE",
            Type::Gaussian => "GAUSSIAN",
            Type::GaussianQuantized => "GAUSSIAN_QUANTIZED",
        }
    }

    /// The variant with the given schema name.
    pub fn from_str_name(value: &str) -> (r: Option<Self>)
        ensures
            r == type_from_variant_name(value@),
    {
        if str_eq(value, "NONE") {
            Some(Type::NoValue)
        } else if str_eq(value, "GAUSSIAN") {
            Some(Type::Gaussian)
        } else if str_eq(value, "GAUSSIAN_QUANTIZED") {
            Some(Type::GaussianQuantized)
        } else {
            None
        }
    }
}
} // verus!
