//! Enumerations of the `lens` messages of the schema.
use vstd::prelude::*;

use crate::text::str_eq;

verus! {

#[derive(Debug, Clone, Copy, PartialEq, Eq, Structural)]
pub enum Type {
    NotSpecified,
    Gnomonical,
    Stereographic,
    Equidistant,
    EquisolidAngle,
    Orthographic,
    Custom,
}

pub open spec fn type_variant_name(v: Type) -> Seq<char> {
    match v {
        Type::NotSpecified => "TYPE_NOT_SPECIFIED"@,
        Type::Gnomonical => "GNOMONICAL"@,
        Type::Stereographic => "STEREOGRAPHIC"@,
        Type::Equidistant => "EQUIDISTANT"@,
        Type::EquisolidAngle => "EQUISOLID_ANGLE"@,
        Type::Orthographic => "ORTHOGRAPHIC"@,
        Type::Custom => "CUSTOM"@,
    }
}

pub open spec fn type_from_variant_name(s: Seq<char>) -> Option<Type> {
    if s == "TYPE_NOT_SPECIFIED"@ {
        Some(Type::NotSpecified)
    } else if s == "GNOMONICAL"@ {
        Some(Type::Gnomonical)
    } else if s == "STEREOGRAPHIC"@ {
        Some(Type::Stereographic)
    } else if s == "EQUIDISTANT"@ {
        Some(Type::Equidistant)
    } else if s == "EQUISOLID_ANGLE"@ {
        Some(Type::EquisolidAngle)
    } else if s == "ORTHOGRAPHIC"@ {
        Some(Type::Orthographic)
    } else if s == "CUSTOM"@ {
        Some(Type::Custom)
    } else {
        None
    }
}

impl Type {
    /// The name of the variant in the message schema.
    pub fn as_str_name(&self) -> (r: &'static str)
        ensures
            r@ == type_variant_name(*self),
    {
        match self {
            Type::NotSpecified => "TYPE_NOT_SPECIFIED",
            Type::Gnomonical => "GNOMONICAL",
            Type::Stereographic => "STEREOGRAPHIC",
            Type::Equidistant => "EQUIDISTANT",
            Type::EquisolidAngle => "EQUISOLID_ANGLE",
            Type::Orthographic => "ORTHOGRAPHIC",
            Type::Custom => "CUSTOM",
        }
    }

    /// The variant with the given schema name.
    pub fn from_str_name(value: &str) -> (r: Option<Self>)
        ensures
            r == type_from_variant_name(value@),
    {
        if str_eq(value, "TYPE_NOT_SPECIFIED") {
            Some(Type::NotSpecified)
        } else if str_eq(value, "GNOMONICAL") {
            Some(Type::Gnomonical)
        } else if str_eq(value, "STEREOGRAPHIC") {
            Some(Type::Stereographic)
        } else if str_eq(value, "EQUIDISTANT") {
            Some(Type::Equidistant)
        } else if str_eq(value, "EQUISOLID_ANGLE") {
            Some(Type::EquisolidAngle)
        } else if str_eq(value, "ORTHOGRAPHIC") {
            Some(Type::Orthographic)
        } else if str_eq(value, "CUSTOM") {
            Some(Type::Custom)
        } else {
            None
        }
    }
}

#[derive(Debug, Clone, Copy, PartialEq, Eq, Structural)]
pub enum FunctionType {
    FunctionNotSpecified,
    Sin,
    Tan,
    Id,
}

pub open spec fn function_type_variant_name(v: FunctionType) -> Seq<char> {
    match v {
        FunctionType::FunctionNotSpecified => "FUNCTION_NOT_SPECIFIED"@,
        FunctionType::Sin => "SIN"@,
        FunctionType::Tan => "TAN"@,
        FunctionType::Id => "ID"@,
    }
}

pub open spec fn function_type_from_variant_name(s: Seq<char>) -> Option<FunctionType> {
    if s == "FUNCTION_NOT_SPECIFIED"@ {
        Some(FunctionType::FunctionNotSpecified)
    } else if s == "SIN"@ {
        Some(FunctionType::Sin)
    } else if s == "TAN"@ {
        Some(FunctionType::Tan)
    } else if s == "ID"@ {
        Some(FunctionType::Id)
    } else {
        None
    }
}

impl FunctionType {
    /// The name of the variant in the message schema.
    pub fn as_str_name(&self) -> (r: &'static str)
        ensures
            r@ == function_type_variant_name(*self),
    {
        match self {
            FunctionType::FunctionNotSpecified => "FUNCTION_NOT_SPECIFIED",
            FunctionType::Sin => "SIN",
            FunctionType::Tan => "TAN",
            FunctionType::Id => "ID",
        }
    }

    /// The variant with the given schema name.
    pub fn from_str_name(value: &str) -> (r: Option<Self>)
        ensures
            r == function_type_from_variant_name(value@),
    {
        if str_eq(value, "FUNCTION_NOT_SPECIFIED") {
            Some(FunctionType::FunctionNotSpecified)
        } else if str_eq(value, "SIN") {
            Some(FunctionType::Sin)
        } else if str_eq(value, "TAN") {
            Some(FunctionType::Tan)
        } else if str_eq(value, "ID") {
            Some(FunctionType::Id)
        } else {
            None
        }
    }
}
} // verus!
