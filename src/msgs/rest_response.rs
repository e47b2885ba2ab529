//! Enumerations of the `rest_response` messages of the schema.
use vstd::prelude::*;

use crate::text::str_eq;

verus! {

#[derive(Debug, Clone, Copy, PartialEq, Eq, Structural)]
pub enum Type {
    Success,
    Error,
    Login,
    Logout,
}

pub open spec fn type_variant_name(v: Type) -> Seq<char> {
    match v {
        Type::Success => "SUCCESS"@,
        Type::Error => "ERR"@,
        Type::Login => "LOGIN"@,
        Type::Logout => "LOGOUT"@,
    }
}

pub open spec fn type_from_variant_name(s: Seq<char>) -> Option<Type> {
    if s == "SUCCESS"@ {
        Some(Type::Success)
    } else if s == "ERR"@ {
        Some(Type::Error)
    } else if s == "LOGIN"@ {
        Some(Type::Login)
    } else if s == "LOGOUT"@ {
        Some(Type::Logout)
    } else {
        None
    }
}

impl Type {
    /// The name of the variant in the message schema.
    pub fn as_str_name(&self) -> (r: &'static str)
        ensures
            r@ == type_variant_name(*self),
    {
        match self {
            Type::Success => "SUCCESS",
            Type::Error => "ERR",
            Type::Login => "LOGIN",
            Type::Logout => "LOGOUT",
        }
    }

    /// The variant with the given schema name.
    pub fn from_str_name(value: &str) -> (r: Option<Self>)
        ensures
            r == type_from_variant_name(value@),
    {
        if str_eq(value, "SUCCESS") {
            Some(Type::Success)
        } else if str_eq(value, "ERR") {
            Some(Type::Error)
        } else if str_eq(value, "LOGIN") {
            Some(Type::Login)
        } else if str_eq(value, "LOGOUT") {
            Some(Type::Logout)
        } else {
            None
        }
    }
}
} // verus!
