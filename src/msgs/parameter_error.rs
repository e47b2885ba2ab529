//! Enumerations of the `parameter_error` messages of the schema.
use vstd::prelude::*;

use crate::text::str_eq;

verus! {

#[derive(Debug, Clone, Copy, PartialEq, Eq, Structural)]
pub enum Type {
    Success,
    AlreadyDeclared,
    InvalidType,
    NotDeclared,
}

pub open spec fn type_variant_name(v: Type) -> Seq<char> {
    match v {
        Type::Success => "SUCCESS"@,
        Type::AlreadyDeclared => "ALREADY_DECLARED"@,
        Type::InvalidType => "INVALID_TYPE"@,
        Type::NotDeclared => "NOT_DECLARED"@,
    }
}

pub open spec fn type_from_variant_name(s: Seq<char>) -> Option<Type> {
    if s == "SUCCESS"@ {
        Some(Type::Success)
    } else if s == "ALREADY_DECLARED"@ {
        Some(Type::AlreadyDeclared)
    } else if s == "INVALID_TYPE"@ {
        Some(Type::InvalidType)
    } else if s == "NOT_DECLARED"@ {
        Some(Type::NotDeclared)
    } else {
        None
    }
}

impl Type {
    /// The name of the variant in the message schema.
    pub fn as_str_name(&self) -> (r: &'static str)
        ensures
            r@ == type_variant_name(*self),
    {
        match self {
            Type::Success => "SUCCESS",
            Type::AlreadyDeclared => "ALREADY_DECLARED",
            Type::InvalidType => "INVALID_TYPE",
            Type::NotDeclared => "NOT_DECLARED",
        }
    }

    /// The variant with the given schema name.
    pub fn from_str_name(value: &str) -> (r: Option<Self>)
        ensures
            r == type_from_variant_name(value@),
    {
        if str_eq(value, "SUCCESS") {
            Some(Type::Success)
        } else if str_eq(value, "ALREADY_DECLARED") {
            Some(Type::AlreadyDeclared)
        } else if str_eq(value, "INVALID_TYPE") {
            Some(Type::InvalidType)
        } else if str_eq(value, "NOT_DECLARED") {
            Some(Type::NotDeclared)
        } else {
            None
        }
    }
}
} // verus!
