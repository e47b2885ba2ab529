//! Enumerations of the `geometry` messages of the schema.
use vstd::prelude::*;

use crate::text::str_eq;

verus! {

#[derive(Debug, Clone, Copy, PartialEq, Eq, Structural)]
pub enum Type {
    Box,
    Cylinder,
    Sphere,
    Plane,
    Image,
    Heightmap,
    Mesh,
    TriangleFan,
    LineStrip,
    Polyline,
    Cone,
    Empty,
    Arrow,
    Axis,
    Capsule,
    Ellipsoid,
}

pub open spec fn type_variant_name(v: Type) -> Seq<char> {
    match v {
        Type::Box => "BOX"@,
        Type::Cylinder => "CYLINDER"@,
        Type::Sphere => "SPHERE"@,
        Type::Plane => "PLANE"@,
        Type::Image => "IMAGE"@,
        Type::Heightmap => "HEIGHTMAP"@,
        Type::Mesh => "MESH"@,
        Type::TriangleFan => "TRIANGLE_FAN"@,
        Type::LineStrip => "LINE_STRIP"@,
        Type::Polyline => "POLYLINE"@,
        Type::Cone => "CONE"@,
        Type::Empty => "EMPTY"@,
        Type::Arrow => "ARROW"@,
        Type::Axis => "AXIS"@,
        Type::Capsule => "CAPSULE"@,
        Type::Ellipsoid => "ELLIPSOID"@,
    }
}

pub open spec fn type_from_variant_name(s: Seq<char>) -> Option<Type> {
    if s == "BOX"@ {
        Some(Type::Box)
    } else if s == "CYLINDER"@ {
        Some(Type::Cylinder)
    } else if s == "SPHERE"@ {
        Some(Type::Sphere)
    } else if s == "PLANE"@ {
        Some(Type::Plane)
    } else if s == "IMAGE"@ {
        Some(Type::Image)
    } else if s == "HEIGHTMAP"@ {
        Some(Type::Heightmap)
    } else if s == "MESH"@ {
        Some(Type::Mesh)
    } else if s == "TRIANGLE_FAN"@ {
        Some(Type::TriangleFan)
    } else if s == "LINE_STRIP"@ {
        Some(Type::LineStrip)
    } else if s == "POLYLINE"@ {
        Some(Type::Polyline)
    } else if s == "CONE"@ {
        Some(Type::Cone)
    } else if s == "EMPTY"@ {
        Some(Type::Empty)
    } else if s == "ARROW"@ {
        Some(Type::Arrow)
    } else if s == "AXIS"@ {
        Some(Type::Axis)
    } else if s == "CAPSULE"@ {
        Some(Type::Capsule)
    } else if s == "ELLIPSOID"@ {
        Some(Type::Ellipsoid)
    } else {
        None
    }
}

impl Type {
    /// The name of the variant in the message schema.
    pub fn as_str_name(&self) -> (r: &'static str)
        ensures
            r@ == type_variant_name(*self),
    {
        match self {
            Type::Box => "BOX",
            Type::Cylinder => "CYLINDER",
            Type::Sphere => "SPHERE",
            Type::Plane => "PLANE",
            Type::Image => "IMAGE",
            Type::Heightmap => "HEIGHTMAP",
            Type::Mesh => "MESH",
            Type::TriangleFan => "TRIANGLE_FAN",
            Type::LineStrip => "LINE_STRIP",
            Type::Polyline => "POLYLINE",
            Type::Cone => "CONE",
            Type::Empty => "EMPTY",
            Type::Arrow => "ARROW",
            Type::Axis => "AXIS",
            Type::Capsule => "CAPSULE",
            Type::Ellipsoid => "ELLIPSOID",
        }
    }

    /// The variant with the given schema name.
    pub fn from_str_name(value: &str) -> (r: Option<Self>)
        ensures
            r == type_from_variant_name(value@),
    {
        if str_eq(value, "BOX") {
            Some(Type::Box)
        } else if str_eq(value, "CYLINDER") {
            Some(Type::Cylinder)
        } else if str_eq(value, "SPHERE") {
            Some(Type::Sphere)
        } else if str_eq(value, "PLANE") {
            Some(Type::Plane)
        } else if str_eq(value, "IMAGE") {
            Some(Type::Image)
        } else if str_eq(value, "HEIGHTMAP") {
            Some(Type::Heightmap)
        } else if str_eq(value, "MESH") {
            Some(Type::Mesh)
        } else if str_eq(value, "TRIANGLE_FAN") {
            Some(Type::TriangleFan)
        } else if str_eq(value, "LINE_STRIP") {
            Some(Type::LineStrip)
        } else if str_eq(value, "POLYLINE") {
            Some(Type::Polyline)
        } else if str_eq(value, "CONE") {
            Some(Type::Cone)
        } else if str_eq(value, "EMPTY") {
            Some(Type::Empty)
        } else if str_eq(value, "ARROW") {
            Some(Type::Arrow)
        } else if str_eq(value, "AXIS") {
            Some(Type::Axis)
        } else if str_eq(value, "CAPSULE") {
            Some(Type::Capsule)
        } else if str_eq(value, "ELLIPSOID") {
            Some(Type::Ellipsoid)
        } else {
            None
        }
    }
}
} // verus!
