//! Enumerations of the `dvl_tracking_target` messages of the schema.
use vstd::prelude::*;

use crate::text::str_eq;

verus! {

#[derive(Debug, Clone, Copy, PartialEq, Eq, Structural)]
pub enum TargetType {
    DvlTargetUnspecified,
    DvlTargetBottom,
    DvlTargetWaterMass,
}

pub open spec fn target_type_variant_name(v: TargetType) -> Seq<char> {
    match v {
        TargetType::DvlTargetUnspecified => "DVL_TARGET_UNSPECIFIED"@,
        TargetType::DvlTargetBottom => "DVL_TARGET_BOTTOM"@,
        TargetType::DvlTargetWaterMass => "DVL_TARGET_WATER_MASS"@,
    }
}

pub open spec fn target_type_from_variant_name(s: Seq<char>) -> Option<TargetType> {
    if s == "DVL_TARGET_UNSPECIFIED"@ {
        Some(TargetType::DvlTargetUnspecified)
    } else if s == "DVL_TARGET_BOTTOM"@ {
        Some(TargetType::DvlTargetBottom)
    } else if s == "DVL_TARGET_WATER_MASS"@ {
        Some(TargetType::DvlTargetWaterMass)
    } else {
        None
    }
}

impl TargetType {
    /// The name of the variant in the message schema.
    pub fn as_str_name(&self) -> (r: &'static str)
        ensures
            r@ == target_type_variant_name(*self),
    {
        match self {
            TargetType::DvlTargetUnspecified => "DVL_TARGET_UNSPECIFIED",
            TargetType::DvlTargetBottom => "DVL_TARGET_BOTTOM",
            TargetType::DvlTargetWaterMass => "DVL_TARGET_WATER_MASS",
        }
    }

    /// The variant with the given schema name.
    pub fn from_str_name(value: &str) -> (r: Option<Self>)
        ensures
            r == target_type_from_variant_name(value@),
    {
        if str_eq(value, "DVL_TARGET_UNSPECIFIED") {
            Some(TargetType::DvlTargetUnspecified)
        } else if str_eq(value, "DVL_TARGET_BOTTOM") {
            Some(TargetType::DvlTargetBottom)
        } else if str_eq(value, "DVL_TARGET_WATER_MASS") {
            Some(TargetType::DvlTargetWaterMass)
        } else {
            None
        }
    }
}
} // verus!
