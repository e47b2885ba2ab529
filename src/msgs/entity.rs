//! Enumerations of the `entity` messages of the schema.
use vstd::prelude::*;

use crate::text::str_eq;

verus! {

#[derive(Debug, Clone, Copy, PartialEq, Eq, Structural)]
pub enum Type {
    NoValue,
    Light,
    Model,
    Link,
    Visual,
    Collision,
    Sensor,
    Joint,
    Actor,
    World,
}

pub open spec fn type_variant_name(v: Type) -> Seq<char> {
    match v {
        Type::NoValue => "NONE"@,
        Type::Light => "LIGHT"@,
        Type::Model => "MODEL"@,
        Type::Link => "LINK"@,
        Type::Visual => "VISUAL"@,
        Type::Collision => "COLLISION"@,
        Type::Sensor => "SENSOR"@,
        Type::Joint => "JOINT"@,
        Type::Actor => "ACTOR"@,
        Type::World => "WORLD"@,
    }
}

pub open spec fn type_from_variant_name(s: Seq<char>) -> Option<Type> {
    if s == "NONE"@ {
        Some(Type::NoValue)
    } else if s == "LIGHT"@ {
        Some(Type::Light)
    } else if s == "MODEL"@ {
        Some(Type::Model)
    } else if s == "LINK"@ {
        Some(Type::Link)
    } else if s == "VISUAL"@ {
        Some(Type::Visual)
    } else if s == "COLLISION"@ {
        Some(Type::Collision)
    } else if s == "SENSOR"@ {
        Some(Type::Sensor)
    } else if s == "JOINT"@ {
        Some(Type::Joint)
    } else if s == "ACTOR"@ {
        Some(Type::Actor)
    } else if s == "WORLD"@ {
        Some(Type::World)
    } else {
        None
    }
}

impl Type {
    /// The name of the variant in the message schema.
    pub fn as_str_name(&self) -> (r: &'static str)
        ensures
            r@ == type_variant_name(*self),
    {
        match self {
            Type::NoValue => "NONE",
            Type::Light => "LIGHT",
            Type::Model => "MODEL",
            Type::Link => "LINK",
            Type::Visual => "VISUAL",
            Type::Collision => "COLLISION",
            Type::Sensor => "SENSOR",
            Type::Joint => "JOINT",
            Type::Actor => "ACTOR",
            Type::World => "WORLD",
        }
    }

    /// The variant with the given schema name.
    pub fn from_str_name(value: &str) -> (r: Option<Self>)
        ensures
            r == type_from_variant_name(value@),
    {
        if str_eq(value, "NONE") {
            Some(Type::NoValue)
        } else if str_eq(value, "LIGHT") {
            Some(Type::Light)
        } else if str_eq(value, "MODEL") {
            Some(Type::Model)
        } else if str_eq(value, "LINK") {
            Some(Type::Link)
        } else if str_eq(value, "VISUAL") {
            Some(Type::Visual)
        } else if str_eq(value, "COLLISION") {
            Some(Type::Collision)
        } else if str_eq(value, "SENSOR") {
            Some(Type::Sensor)
        } else if str_eq(value, "JOINT") {
            Some(Type::Joint)
        } else if str_eq(value, "ACTOR") {
            Some(Type::Actor)
        } else if str_eq(value, "WORLD") {
            Some(Type::World)
        } else {
            None
        }
    }
}
} // verus!
