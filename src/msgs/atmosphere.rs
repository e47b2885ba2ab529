//! Enumerations of the `atmosphere` messages of the schema.
use vstd::prelude::*;

use crate::text::str_eq;

verus! {

#[derive(Debug, Clone, Copy, PartialEq, Eq, Structural)]
pub enum Type {
    Adiabatic,
}

pub open spec fn type_variant_name(v: Type) -> Seq<char> {
    match v {
        Type::Adiabatic => "ADIABATIC"@,
    }
}

pub open spec fn type_from_variant_name(s: Seq<char>) -> Option<Type> {
    if s == "ADIABATIC"@ {
        Some(Type::Adiabatic)
    } else {
        None
    }
}

impl Type {
    /// The name of the variant in the message schema.
    pub fn as_str_name(&self) -> (r: &'static str)
        ensures
            r@ == type_variant_name(*self),
    {
        match self {
            Type::Adiabatic => "ADIABATIC",
        }
    }

    /// The variant with the given schema name.
    pub fn from_str_name(value: &str) -> (r: Option<Self>)
        ensures
            r == type_from_variant_name(value@),
    {
        if str_eq(value, "ADIABATIC") {
            Some(Type::Adiabatic)
        } else {
            None
        }
    }
}
} // verus!
