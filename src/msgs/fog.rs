//! Enumerations of the `fog` messages of the schema.
use vstd::prelude::*;

use crate::text::str_eq;

verus! {

#[derive(Debug, Clone, Copy, PartialEq, Eq, Structural)]
pub enum FogType {
    NoValue,
    Linear,
    Exponential,
    Exponential2,
}

pub open spec fn fog_type_variant_name(v: FogType) -> Seq<char> {
    match v {
        FogType::NoValue => "NONE"@,
        FogType::Linear => "LINEAR"@,
        FogType::Exponential => "EXPONENTIAL"@,
        FogType::Exponential2 => "EXPONENTIAL2"@,
    }
}

pub open spec fn fog_type_from_variant_name(s: Seq<char>) -> Option<FogType> {
    if s == "NONE"@ {
        Some(FogType::NoValue)
    } else if s == "LINEAR"@ {
        Some(FogType::Linear)
    } else if s == "EXPONENTIAL"@ {
        Some(FogType::Exponential)
    } else if s == "EXPONENTIAL2"@ {
        Some(FogType::Exponential2)
    } else {
        None
    }
}

impl FogType {
    /// The name of the variant in the message schema.
    pub fn as_str_name(&self) -> (r: &'static str)
        ensures
            r@ == fog_type_variant_name(*self),
    {
        match self {
            FogType::NoValue => "NONE",
            FogType::Linear => "LINEAR",
            FogType::Exponential => "EXPONENTIAL",
            FogType::Exponential2 => "EXPONENTIAL2",
        }
    }

    /// The variant with the given schema name.
    pub fn from_str_name(value: &str) -> (r: Option<Self>)
        ensures
            r == fog_type_from_variant_name(value@),
    {
        if str_eq(value, "NONE") {
            Some(FogType::NoValue)
        } else if str_eq(value, "LINEAR") {
            Some(FogType::Linear)
        } else if str_eq(value, "EXPONENTIAL") {
            Some(FogType::Exponential)
        } else if str_eq(value, "EXPONENTIAL2") {
            Some(FogType::Exponential2)
        } else {
            None
        }
    }
}
} // verus!
