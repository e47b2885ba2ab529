//! Enumerations of the `user_cmd` messages of the schema.
use vstd::prelude::*;

use crate::text::str_eq;

verus! {

#[derive(Debug, Clone, Copy, PartialEq, Eq, Structural)]
pub enum Type {
    Moving,
    WorldControl,
    Wrench,
    Scaling,
}

pub open spec fn type_variant_name(v: Type) -> Seq<char> {
    match v {
        Type::Moving => "MOVING"@,
        Type::WorldControl => "WORLD_CONTROL"@,
        Type::Wrench => "WRENCH"@,
        Type::Scaling => "SCALING"@,
    }
}

pub open spec fn type_from_variant_name(s: Seq<char>) -> Option<Type> {
    if s == "MOVING"@ {
        Some(Type::Moving)
    } else if s == "WORLD_CONTROL"@ {
        Some(Type::WorldControl)
    } else if s == "WRENCH"@ {
        Some(Type::Wrench)
    } else if s == "SCALING"@ {
        Some(Type::Scaling)
    } else {
        None
    }
}

impl Type {
    /// The name of the variant in the message schema.
    pub fn as_str_name(&self) -> (r: &'static str)
        ensures
            r@ == type_variant_name(*self),
    {
        match self {
            Type::Moving => "MOVING",
            Type::WorldControl => "WORLD_CONTROL",
            Type::Wrench => "WRENCH",
            Type::Scaling => "SCALING",
        }
    }

    /// The variant with the given schema name.
    pub fn from_str_name(value: &str) -> (r: Option<Self>)
        ensures
            r == type_from_variant_name(value@),
    {
        if str_eq(value, "MOVING") {
            Some(Type::Moving)
        } else if str_eq(value, "WORLD_CONTROL") {
            Some(Type::WorldControl)
        } else if str_eq(value, "WRENCH") {
            Some(Type::Wrench)
        } else if str_eq(value, "SCALING") {
            Some(Type::Scaling)
        } else {
            None
        }
    }
}
} // verus!
