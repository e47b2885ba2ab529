//! Enumerations of the `dvl_kinematic_estimate` messages of the schema.
use vstd::prelude::*;

use crate::text::str_eq;

verus! {

#[derive(Debug, Clone, Copy, PartialEq, Eq, Structural)]
pub enum ReferenceType {
    DvlReferenceUnspecified,
    DvlReferenceEarth,
    DvlReferenceShip,
}

pub open spec fn reference_type_variant_name(v: ReferenceType) -> Seq<char> {
    match v {
        ReferenceType::DvlReferenceUnspecified => "DVL_REFERENCE_UNSPECIFIED"@,
        ReferenceType::DvlReferenceEarth => "DVL_REFERENCE_EARTH"@,
        ReferenceType::DvlReferenceShip => "DVL_REFERENCE_SHIP"@,
    }
}

pub open spec fn reference_type_from_variant_name(s: Seq<char>) -> Option<ReferenceType> {
    if s == "DVL_REFERENCE_UNSPECIFIED"@ {
        Some(ReferenceType::DvlReferenceUnspecified)
    } else if s == "DVL_REFERENCE_EARTH"@ {
        Some(ReferenceType::DvlReferenceEarth)
    } else if s == "DVL_REFERENCE_SHIP"@ {
        Some(ReferenceType::DvlReferenceShip)
    } else {
        None
    }
}

impl ReferenceType {
    /// The name of the variant in the message schema.
    pub fn as_str_name(&self) -> (r: &'static str)
        ensures
            r@ == reference_type_variant_name(*self),
    {
        match self {
            ReferenceType::DvlReferenceUnspecified => "DVL_REFERENCE_UNSPECIFIED",
            ReferenceType::DvlReferenceEarth => "DVL_REFERENCE_EARTH",
            ReferenceType::DvlReferenceShip => "DVL_REFERENCE_SHIP",
        }
    }

    /// The variant with the given schema name.
    pub fn from_str_name(value: &str) -> (r: Option<Self>)
        ensures
            r == reference_type_from_variant_name(value@),
    {
        if str_eq(value, "DVL_REFERENCE_UNSPECIFIED") {
            Some(ReferenceType::DvlReferenceUnspecified)
        } else if str_eq(value, "DVL_REFERENCE_EARTH") {
            Some(ReferenceType::DvlReferenceEarth)
        } else if str_eq(value, "DVL_REFERENCE_SHIP") {
            Some(ReferenceType::DvlReferenceShip)
        } else {
            None
        }
    }
}
} // verus!
