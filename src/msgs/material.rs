//! Enumerations of the `material` messages of the schema.
use vstd::prelude::*;

use crate::text::str_eq;

verus! {

#[derive(Debug, Clone, Copy, PartialEq, Eq, Structural)]
pub enum ShaderType {
    Vertex,
    Pixel,
    NormalMapObjectSpace,
    NormalMapTangentSpace,
}

pub open spec fn shader_type_variant_name(v: ShaderType) -> Seq<char> {
    match v {
        ShaderType::Vertex => "VERTEX"@,
        ShaderType::Pixel => "PIXEL"@,
        ShaderType::NormalMapObjectSpace => "NORMAL_MAP_OBJECT_SPACE"@,
        ShaderType::NormalMapTangentSpace => "NORMAL_MAP_TANGENT_SPACE"@,
    }
}

pub open spec fn shader_type_from_variant_name(s: Seq<char>) -> Option<ShaderType> {
    if s == "VERTEX"@ {
        Some(ShaderType::Vertex)
    } else if s == "PIXEL"@ {
        Some(ShaderType::Pixel)
    } else if s == "NORMAL_MAP_OBJECT_SPACE"@ {
        Some(ShaderType::NormalMapObjectSpace)
    } else if s == "NORMAL_MAP_TANGENT_SPACE"@ {
        Some(ShaderType::NormalMapTangentSpace)
    } else {
        None
    }
}

impl ShaderType {
    /// The name of the variant in the message schema.
    pub fn as_str_name(&self) -> (r: &'static str)
        ensures
            r@ == shader_type_variant_name(*self),
    {
        match self {
            ShaderType::Vertex => "VERTEX",
            ShaderType::Pixel => "PIXEL",
            ShaderType::NormalMapObjectSpace => "NORMAL_MAP_OBJECT_SPACE",
            ShaderType::NormalMapTangentSpace => "NORMAL_MAP_TANGENT_SPACE",
        }
    }

    /// The variant with the given schema name.
    pub fn from_str_name(value: &str) -> (r: Option<Self>)
        ensures
            r == shader_type_from_variant_name(value@),
    {
        if str_eq(value, "VERTEX") {
            Some(ShaderType::Vertex)
        } else if str_eq(value, "PIXEL") {
            Some(ShaderType::Pixel)
        } else if str_eq(value, "NORMAL_MAP_OBJECT_SPACE") {
            Some(ShaderType::NormalMapObjectSpace)
        } else if str_eq(value, "NORMAL_MAP_TANGENT_SPACE") {
            Some(ShaderType::NormalMapTangentSpace)
        } else {
            None
        }
    }
}
} // verus!
