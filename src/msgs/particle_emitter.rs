//! Enumerations of the `particle_emitter` messages of the schema.
use vstd::prelude::*;

use crate::text::str_eq;

verus! {

#[derive(Debug, Clone, Copy, PartialEq, Eq, Structural)]
pub enum EmitterType {
    Point,
    Box,
    Cylinder,
    Ellipsoid,
}

pub open spec fn emitter_type_variant_name(v: EmitterType) -> Seq<char> {
    match v {
        EmitterType::Point => "POINT"@,
        EmitterType::Box => "BOX"@,
        EmitterType::Cylinder => "CYLINDER"@,
        EmitterType::Ellipsoid => "ELLIPSOID"@,
    }
}

pub open spec fn emitter_type_from_variant_name(s: Seq<char>) -> Option<EmitterType> {
    if s == "POINT"@ {
        Some(EmitterType::Point)
    } else if s == "BOX"@ {
        Some(EmitterType::Box)
    } else if s == "CYLINDER"@ {
        Some(EmitterType::Cylinder)
    } else if s == "ELLIPSOID"@ {
        Some(EmitterType::Ellipsoid)
    } else {
        None
    }
}

impl EmitterType {
    /// The name of the variant in the message schema.
    pub fn as_str_name(&self) -> (r: &'static str)
        ensures
            r@ == emitter_type_variant_name(*self),
    {
        match self {
            EmitterType::Point => "POINT",
            EmitterType::Box => "BOX",
            EmitterType::Cylinder => "CYLINDER",
            EmitterType::Ellipsoid => "ELLIPSOID",
        }
    }

    /// The variant with the given schema name.
    pub fn from_str_name(value: &str) -> (r: Option<Self>)
        ensures
            r == emitter_type_from_variant_name(value@),
    {
        if str_eq(value, "POINT") {
            Some(EmitterType::Point)
        } else if str_eq(value, "BOX") {
            Some(EmitterType::Box)
        } else if str_eq(value, "CYLINDER") {
            Some(EmitterType::Cylinder)
        } else if str_eq(value, "ELLIPSOID") {
            Some(EmitterType::Ellipsoid)
        } else {
            None
        }
    }
}
} // verus!
