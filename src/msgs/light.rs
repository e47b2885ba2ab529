//! Enumerations of the `light` messages of the schema.
use vstd::prelude::*;

use crate::text::str_eq;

verus! {

#[derive(Debug, Clone, Copy, PartialEq, Eq, Structural)]
pub enum LightType {
    Point,
    Spot,
    Directional,
}

pub open spec fn light_type_variant_name(v: LightType) -> Seq<char> {
    match v {
        LightType::Point => "POINT"@,
        LightType::Spot => "SPOT"@,
        LightType::Directional => "DIRECTIONAL"@,
    }
}

pub open spec fn light_type_from_variant_name(s: Seq<char>) -> Option<LightType> {
    if s == "POINT"@ {
        Some(LightType::Point)
    } else if s == "SPOT"@ {
        Some(LightType::Spot)
    } else if s == "DIRECTIONAL"@ {
        Some(LightType::Directional)
    } else {
        None
    }
}

impl LightType {
    /// The name of the variant in the message schema.
    pub fn as_str_name(&self) -> (r: &'static str)
        ensures
            r@ == light_type_variant_name(*self),
    {
        match self {
            LightType::Point => "POINT",
            LightType::Spot => "SPOT",
            LightType::Directional => "DIRECTIONAL",
        }
    }

    /// The variant with the given schema name.
    pub fn from_str_name(value: &str) -> (r: Option<Self>)
        ensures
            r == light_type_from_variant_name(value@),
    {
        if str_eq(value, "POINT") {
            Some(LightType::Point)
        } else if str_eq(value, "SPOT") {
            Some(LightType::Spot)
        } else if str_eq(value, "DIRECTIONAL") {
            Some(LightType::Directional)
        } else {
            None
        }
    }
}
} // verus!
