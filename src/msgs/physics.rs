//! Enumerations of the `physics` messages of the schema.
use vstd::prelude::*;

use crate::text::str_eq;

verus! {

#[derive(Debug, Clone, Copy, PartialEq, Eq, Structural)]
pub enum Type {
    Ode,
    Bullet,
    Simbody,
    Dart,
}

pub open spec fn type_variant_name(v: Type) -> Seq<char> {
    match v {
        Type::Ode => "ODE"@,
        Type::Bullet => "BULLET"@,
        Type::Simbody => "SIMBODY"@,
        Type::Dart => "DART"@,
    }
}

pub open spec fn type_from_variant_name(s: Seq<char>) -> Option<Type> {
    if s == "ODE"@ {
        Some(Type::Ode)
    } else if s == "BULLET"@ {
        Some(Type::Bullet)
    } else if s == "SIMBODY"@ {
        Some(Type::Simbody)
    } else if s == "DART"@ {
        Some(Type::Dart)
    } else {
        None
    }
}

impl Type {
    /// The name of the variant in the message schema.
    pub fn as_str_name(&self) -> (r: &'static str)
        ensures
            r@ == type_variant_name(*self),
    {
        match self {
            Type::Ode => "ODE",
            Type::Bullet => "BULLET",
            Type::Simbody => "SIMBODY",
            Type::Dart => "DART",
        }
    }

    /// The variant with the given schema name.
    pub fn from_str_name(value: &str) -> (r: Option<Self>)
        ensures
            r == type_from_variant_name(value@),
    {
        if str_eq(value, "ODE") {
            Some(Type::Ode)
        } else if str_eq(value, "BULLET") {
            Some(Type::Bullet)
        } else if str_eq(value, "SIMBODY") {
            Some(Type::Simbody)
        } else if str_eq(value, "DART") {
            Some(Type::Dart)
        } else {
            None
        }
    }
}
} // verus!
