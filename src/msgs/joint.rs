//! Enumerations of the `joint` messages of the schema.
use vstd::prelude::*;

use crate::text::str_eq;

verus! {

#[derive(Debug, Clone, Copy, PartialEq, Eq, Structural)]
pub enum Type {
    Revolute,
    Revolute2,
    Prismatic,
    Universal,
    Ball,
    Screw,
    Gearbox,
    Fixed,
    Continuous,
}

pub open spec fn type_variant_name(v: Type) -> Seq<char> {
    match v {
        Type::Revolute => "REVOLUTE"@,
        Type::Revolute2 => "REVOLUTE2"@,
        Type::Prismatic => "PRISMATIC"@,
        Type::Universal => "UNIVERSAL"@,
        Type::Ball => "BALL"@,
        Type::Screw => "SCREW"@,
        Type::Gearbox => "GEARBOX"@,
        Type::Fixed => "FIXED"@,
        Type::Continuous => "CONTINUOUS"@,
    }
}

pub open spec fn type_from_variant_name(s: Seq<char>) -> Option<Type> {
    if s == "REVOLUTE"@ {
        Some(Type::Revolute)
    } else if s == "REVOLUTE2"@ {
        Some(Type::Revolute2)
    } else if s == "PRISMATIC"@ {
        Some(Type::Prismatic)
    } else if s == "UNIVERSAL"@ {
        Some(Type::Universal)
    } else if s == "BALL"@ {
        Some(Type::Ball)
    } else if s == "SCREW"@ {
        Some(Type::Screw)
    } else if s == "GEARBOX"@ {
        Some(Type::Gearbox)
    } else if s == "FIXED"@ {
        Some(Type::Fixed)
    } else if s == "CONTINUOUS"@ {
        Some(Type::Continuous)
    } else {
        None
    }
}

impl Type {
    /// The name of the variant in the message schema.
    pub fn as_str_name(&self) -> (r: &'static str)
        ensures
            r@ == type_variant_name(*self),
    {
        match self {
            Type::Revolute => "REVOLUTE",
            Type::Revolute2 => "REVOLUTE2",
            Type::Prismatic => "PRISMATIC",
            Type::Universal => "UNIVERSAL",
            Type::Ball => "BALL",
            Type::Screw => "SCREW",
            Type::Gearbox => "GEARBOX",
            Type::Fixed => "FIXED",
            Type::Continuous => "CONTINUOUS",
        }
    }

    /// The variant with the given schema name.
    pub fn from_str_name(value: &str) -> (r: Option<Self>)
        ensures
            r == type_from_variant_name(value@),
    {
        if str_eq(value, "REVOLUTE") {
            Some(Type::Revolute)
        } else if str_eq(value, "REVOLUTE2") {
            Some(Type::Revolute2)
        } else if str_eq(value, "PRISMATIC") {
            Some(Type::Prismatic)
        } else if str_eq(value, "UNIVERSAL") {
            Some(Type::Universal)
        } else if str_eq(value, "BALL") {
            Some(Type::Ball)
        } else if str_eq(value, "SCREW") {
            Some(Type::Screw)
        } else if str_eq(value, "GEARBOX") {
            Some(Type::Gearbox)
        } else if str_eq(value, "FIXED") {
            Some(Type::Fixed)
        } else if str_eq(value, "CONTINUOUS") {
            Some(Type::Continuous)
        } else {
            None
        }
    }
}
} // verus!
