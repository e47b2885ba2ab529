//! Enumerations of the `data_load_path_options` messages of the schema.
use vstd::prelude::*;

use crate::text::str_eq;

verus! {

#[derive(Debug, Clone, Copy, PartialEq, Eq, Structural)]
pub enum DataAngularUnits {
    Radians,
    Degrees,
}

pub open spec fn data_angular_units_variant_name(v: DataAngularUnits) -> Seq<char> {
    match v {
        DataAngularUnits::Radians => "RADIANS"@,
        DataAngularUnits::Degrees => "DEGREES"@,
    }
}

pub open spec fn data_angular_units_from_variant_name(s: Seq<char>) -> Option<DataAngularUnits> {
    if s == "RADIANS"@ {
        Some(DataAngularUnits::Radians)
    } else if s == "DEGREES"@ {
        Some(DataAngularUnits::Degrees)
    } else {
        None
    }
}

impl DataAngularUnits {
    /// The name of the variant in the message schema.
    pub fn as_str_name(&self) -> (r: &'static str)
        ensures
            r@ == data_angular_units_variant_name(*self),
    {
        match self {
            DataAngularUnits::Radians => "RADIANS",
            DataAngularUnits::Degrees => "DEGREES",
        }
    }

    /// The variant with the given schema name.
    pub fn from_str_name(value: &str) -> (r: Option<Self>)
        ensures
            r == data_angular_units_from_variant_name(value@),
    {
        if str_eq(value, "RADIANS") {
            Some(DataAngularUnits::Radians)
        } else if str_eq(value, "DEGREES") {
            Some(DataAngularUnits::Degrees)
        } else {
            None
        }
    }
}
} // verus!
