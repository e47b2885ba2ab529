//! Enumerations of the `point_cloud_packed.field` messages of the schema.
use vstd::prelude::*;

use crate::text::str_eq;

verus! {

#[derive(Debug, Clone, Copy, PartialEq, Eq, Structural)]
pub enum DataType {
    Int8,
    Uint8,
    Int16,
    Uint16,
    Int32,
    Uint32,
    Float32,
    Float64,
}

pub open spec fn data_type_variant_name(v: DataType) -> Seq<char> {
    match v {
        DataType::Int8 => "INT8"@,
        DataType::Uint8 => "UINT8"@,
        DataType::Int16 => "INT16"@,
        DataType::Uint16 => "UINT16"@,
        DataType::Int32 => "INT32"@,
        DataType::Uint32 => "UINT32"@,
        DataType::Float32 => "FLOAT32"@,
        DataType::Float64 => "FLOAT64"@,
    }
}

pub open spec fn data_type_from_variant_name(s: Seq<char>) -> Option<DataType> {
    if s == "INT8"@ {
        Some(DataType::Int8)
    } else if s == "UINT8"@ {
        Some(DataType::Uint8)
    } else if s == "INT16"@ {
        Some(DataType::Int16)
    } else if s == "UINT16"@ {
        Some(DataType::Uint16)
    } else if s == "INT32"@ {
        Some(DataType::Int32)
    } else if s == "UINT32"@ {
        Some(DataType::Uint32)
    } else if s == "FLOAT32"@ {
        Some(DataType::Float32)
    } else if s == "FLOAT64"@ {
        Some(DataType::Float64)
    } else {
        None
    }
}

impl DataType {
    /// The name of the variant in the message schema.
    pub fn as_str_name(&self) -> (r: &'static str)
        ensures
            r@ == data_type_variant_name(*self),
    {
        match self {
            DataType::Int8 => "INT8",
            DataType::Uint8 => "UINT8",
            DataType::Int16 => "INT16",
            DataType::Uint16 => "UINT16",
            DataType::Int32 => "INT32",
            DataType::Uint32 => "UINT32",
            DataType::Float32 => "FLOAT32",
            DataType::Float64 => "FLOAT64",
        }
    }

    /// The variant with the given schema name.
    pub fn from_str_name(value: &str) -> (r: Option<Self>)
        ensures
            r == data_type_from_variant_name(value@),
    {
        if str_eq(value, "INT8") {
            Some(DataType::Int8)
        } else if str_eq(value, "UINT8") {
            Some(DataType::Uint8)
        } else if str_eq(value, "INT16") {
            Some(DataType::Int16)
        } else if str_eq(value, "UINT16") {
            Some(DataType::Uint16)
        } else if str_eq(value, "INT32") {
            Some(DataType::Int32)
        } else if str_eq(value, "UINT32") {
            Some(DataType::Uint32)
        } else if str_eq(value, "FLOAT32") {
            Some(DataType::Float32)
        } else if str_eq(value, "FLOAT64") {
            Some(DataType::Float64)
        } else {
            None
        }
    }
}
} // verus!
