//! Enumerations of the `dvl_velocity_tracking` messages of the schema.
use vstd::prelude::*;

use crate::text::str_eq;

verus! {

#[derive(Debug, Clone, Copy, PartialEq, Eq, Structural)]
pub enum DvlType {
    Unspecified,
    Piston,
    PhasedArray,
}

pub open spec fn dvl_type_variant_name(v: DvlType) -> Seq<char> {
    match v {
        DvlType::Unspecified => "DVL_TYPE_UNSPECIFIED"@,
        DvlType::Piston => "DVL_TYPE_PISTON"@,
        DvlType::PhasedArray => "DVL_TYPE_PHASED_ARRAY"@,
    }
}

pub open spec fn dvl_type_from_variant_name(s: Seq<char>) -> Option<DvlType> {
    if s == "DVL_TYPE_UNSPECIFIED"@ {
        Some(DvlType::Unspecified)
    } else if s == "DVL_TYPE_PISTON"@ {
        Some(DvlType::Piston)
    } else if s == "DVL_TYPE_PHASED_ARRAY"@ {
        Some(DvlType::PhasedArray)
    } else {
        None
    }
}

impl DvlType {
    /// The name of the variant in the message schema.
    pub fn as_str_name(&self) -> (r: &'static str)
        ensures
            r@ == dvl_type_variant_name(*self),
    {
        match self {
            DvlType::Unspecified => "DVL_TYPE_UNSPECIFIED",
            DvlType::Piston => "DVL_TYPE_PISTON",
            DvlType::PhasedArray => "DVL_TYPE_PHASED_ARRAY",
        }
    }

    /// The variant with the given schema name.
    pub fn from_str_name(value: &str) -> (r: Option<Self>)
        ensures
            r == dvl_type_from_variant_name(value@),
    {
        if str_eq(value, "DVL_TYPE_UNSPECIFIED") {
            Some(DvlType::Unspecified)
        } else if str_eq(value, "DVL_TYPE_PISTON") {
            Some(DvlType::Piston)
        } else if str_eq(value, "DVL_TYPE_PHASED_ARRAY") {
            Some(DvlType::PhasedArray)
        } else {
            None
        }
    }
}
} // verus!
