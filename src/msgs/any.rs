//! Enumerations of the `any` messages of the schema.
use vstd::prelude::*;

use crate::text::str_eq;

verus! {

#[derive(Debug, Clone, Copy, PartialEq, Eq, Structural)]
pub enum ValueType {
    NoValue,
    Double,
    Int32,
    String,
    Boolean,
    Vector3d,
    Color,
    Pose3d,
    Quaterniond,
    Time,
}

pub open spec fn value_type_variant_name(v: ValueType) -> Seq<char> {
    match v {
        ValueType::NoValue => "NONE"@,
        ValueType::Double => "DOUBLE"@,
        ValueType::Int32 => "INT32"@,
        ValueType::String => "STRING"@,
        ValueType::Boolean => "BOOLEAN"@,
        ValueType::Vector3d => "VECTOR3D"@,
        ValueType::Color => "COLOR"@,
        ValueType::Pose3d => "POSE3D"@,
        ValueType::Quaterniond => "QUATERNIOND"@,
        ValueType::Time => "TIME"@,
    }
}

pub open spec fn value_type_from_variant_name(s: Seq<char>) -> Option<ValueType> {
    if s == "NONE"@ {
        Some(ValueType::NoValue)
    } else if s == "DOUBLE"@ {
        Some(ValueType::Double)
    } else if s == "INT32"@ {
        Some(ValueType::Int32)
    } else if s == "STRING"@ {
        Some(ValueType::String)
    } else if s == "BOOLEAN"@ {
        Some(ValueType::Boolean)
    } else if s == "VECTOR3D"@ {
        Some(ValueType::Vector3d)
    } else if s == "COLOR"@ {
        Some(ValueType::Color)
    } else if s == "POSE3D"@ {
        Some(ValueType::Pose3d)
    } else if s == "QUATERNIOND"@ {
        Some(ValueType::Quaterniond)
    } else if s == "TIME"@ {
        Some(ValueType::Time)
    } else {
        None
    }
}

impl ValueType {
    /// The name of the variant in the message schema.
    pub fn as_str_name(&self) -> (r: &'static str)
        ensures
            r@ == value_type_variant_name(*self),
    {
        match self {
            ValueType::NoValue => "NONE",
            ValueType::Double => "DOUBLE",
            ValueType::Int32 => "INT32",
            ValueType::String => "STRING",
            ValueType::Boolean => "BOOLEAN",
            ValueType::Vector3d => "VECTOR3D",
            ValueType::Color => "COLOR",
            ValueType::Pose3d => "POSE3D",
            ValueType::Quaterniond => "QUATERNIOND",
            ValueType::Time => "TIME",
        }
    }

    /// The variant with the given schema name.
    pub fn from_str_name(value: &str) -> (r: Option<Self>)
        ensures
            r == value_type_from_variant_name(value@),
    {
        if str_eq(value, "NONE") {
            Some(ValueType::NoValue)
        } else if str_eq(value, "DOUBLE") {
            Some(ValueType::Double)
        } else if str_eq(value, "INT32") {
            Some(ValueType::Int32)
        } else if str_eq(value, "STRING") {
            Some(ValueType::String)
        } else if str_eq(value, "BOOLEAN") {
            Some(ValueType::Boolean)
        } else if str_eq(value, "VECTOR3D") {
            Some(ValueType::Vector3d)
        } else if str_eq(value, "COLOR") {
            Some(ValueType::Color)
        } else if str_eq(value, "POSE3D") {
            Some(ValueType::Pose3d)
        } else if str_eq(value, "QUATERNIOND") {
            Some(ValueType::Quaterniond)
        } else if str_eq(value, "TIME") {
            Some(ValueType::Time)
        } else {
            None
        }
    }
}
} // verus!
