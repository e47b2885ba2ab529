//! Enumerations of the `visual` messages of the schema.
use vstd::prelude::*;

use crate::text::str_eq;

verus! {

#[derive(Debug, Clone, Copy, PartialEq, Eq, Structural)]
pub enum Type {
    Entity,
    Model,
    Link,
    Visual,
    Collision,
    Sensor,
    Gui,
    Physics,
}

pub open spec fn type_variant_name(v: Type) -> Seq<char> {
    match v {
        Type::Entity => "ENTITY"@,
        Type::Model => "MODEL"@,
        Type::Link => "LINK"@,
        Type::Visual => "VISUAL"@,
        Type::Collision => "COLLISION"@,
        Type::Sensor => "SENSOR"@,
        Type::Gui => "GUI"@,
        Type::Physics => "PHYSICS"@,
    }
}

pub open spec fn type_from_variant_name(s: Seq<char>) -> Option<Type> {
    if s == "ENTITY"@ {
        Some(Type::Entity)
    } else if s == "MODEL"@ {
        Some(Type::Model)
    } else if s == "LINK"@ {
        Some(Type::Link)
    } else if s == "VISUAL"@ {
        Some(Type::Visual)
    } else if s == "COLLISION"@ {
        Some(Type::Collision)
    } else if s == "SENSOR"@ {
        Some(Type::Sensor)
    } else if s == "GUI"@ {
        Some(Type::Gui)
    } else if s == "PHYSICS"@ {
        Some(Type::Physics)
    } else {
        None
    }
}

impl Type {
    /// The name of the variant in the message schema.
    pub fn as_str_name(&self) -> (r: &'static str)
        ensures
            r@ == type_variant_name(*self),
    {
        match self {
            Type::Entity => "ENTITY",
            Type::Model => "MODEL",
            Type::Link => "LINK",
            Type::Visual => "VISUAL",
            Type::Collision => "COLLISION",
            Type::Sensor => "SENSOR",
            Type::Gui => "GUI",
            Type::Physics => "PHYSICS",
        }
    }

    /// The variant with the given schema name.
    pub fn from_str_name(value: &str) -> (r: Option<Self>)
        ensures
            r == type_from_variant_name(value@),
    {
        if str_eq(value, "ENTITY") {
            Some(Type::Entity)
        } else if str_eq(value, "MODEL") {
            Some(Type::Model)
        } else if str_eq(value, "LINK") {
            Some(Type::Link)
        } else if str_eq(value, "VISUAL") {
            Some(Type::Visual)
        } else if str_eq(value, "COLLISION") {
            Some(Type::Collision)
        } else if str_eq(value, "SENSOR") {
            Some(Type::Sensor)
        } else if str_eq(value, "GUI") {
            Some(Type::Gui)
        } else if str_eq(value, "PHYSICS") {
            Some(Type::Physics)
        } else {
            None
        }
    }
}
} // verus!
