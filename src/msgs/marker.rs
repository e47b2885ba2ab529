//! Enumerations of the `marker` messages of the schema.
use vstd::prelude::*;

use crate::text::str_eq;

verus! {

#[derive(Debug, Clone, Copy, PartialEq, Eq, Structural)]
pub enum Type {
    NoValue,
    Box,
    Cylinder,
    LineList,
    LineStrip,
    Points,
    Sphere,
    Text,
    TriangleFan,
    TriangleList,
    TriangleStrip,
    Cone,
    Arrow,
    Axis,
    Capsule,
    Ellipsoid,
}

pub open spec fn type_variant_name(v: Type) -> Seq<char> {
    match v {
        Type::NoValue => "NONE"@,
        Type::Box => "BOX"@,
        Type::Cylinder => "CYLINDER"@,
        Type::LineList => "LINE_LIST"@,
        Type::LineStrip => "LINE_STRIP"@,
        Type::Points => "POINTS"@,
        Type::Sphere => "SPHERE"@,
        Type::Text => "TEXT"@,
        Type::TriangleFan => "TRIANGLE_FAN"@,
        Type::TriangleList => "TRIANGLE_LIST"@,
        Type::TriangleStrip => "TRIANGLE_STRIP"@,
        Type::Cone => "CONE"@,
        Type::Arrow => "ARROW"@,
        Type::Axis => "AXIS"@,
        Type::Capsule => "CAPSULE"@,
        Type::Ellipsoid => "ELLIPSOID"@,
    }
}

pub open spec fn type_from_variant_name(s: Seq<char>) -> Option<Type> {
    if s == "NONE"@ {
        Some(Type::NoValue)
    } else if s == "BOX"@ {
        Some(Type::Box)
    } else if s == "CYLINDER"@ {
        Some(Type::Cylinder)
    } else if s == "LINE_LIST"@ {
        Some(Type::LineList)
    } else if s == "LINE_STRIP"@ {
        Some(Type::LineStrip)
    } else if s == "POINTS"@ {
        Some(Type::Points)
    } else if s == "SPHERE"@ {
        Some(Type::Sphere)
    } else if s == "TEXT"@ {
        Some(Type::Text)
    } else if s == "TRIANGLE_FAN"@ {
        Some(Type::TriangleFan)
    } else if s == "TRIANGLE_LIST"@ {
        Some(Type::TriangleList)
    } else if s == "TRIANGLE_STRIP"@ {
        Some(Type::TriangleStrip)
    } else if s == "CONE"@ {
        Some(Type::Cone)
    } else if s == "ARROW"@ {
        Some(Type::Arrow)
    } else if s == "AXIS"@ {
        Some(Type::Axis)
    } else if s == "CAPSULE"@ {
        Some(Type::Capsule)
    } else if s == "ELLIPSOID"@ {
        Some(Type::Ellipsoid)
    } else {
        None
    }
}

impl Type {
    /// The name of the variant in the message schema.
    pub fn as_str_name(&self) -> (r: &'static str)
        ensures
            r@ == type_variant_name(*self),
    {
        match self {
            Type::NoValue => "NONE",
            Type::Box => "BOX",
            Type::Cylinder => "CYLINDER",
            Type::LineList => "LINE_LIST",
            Type::LineStrip => "LINE_STRIP",
            Type::Points => "POINTS",
            Type::Sphere => "SPHERE",
            Type::Text => "TEXT",
            Type::TriangleFan => "TRIANGLE_FAN",
            Type::TriangleList => "TRIANGLE_LIST",
            Type::TriangleStrip => "TRIANGLE_STRIP",
            Type::Cone => "CONE",
            Type::Arrow => "ARROW",
            Type::Axis => "AXIS",
            Type::Capsule => "CAPSULE",
            Type::Ellipsoid => "ELLIPSOID",
        }
    }

    /// The variant with the given schema name.
    pub fn from_str_name(value: &str) -> (r: Option<Self>)
        ensures
            r == type_from_variant_name(value@),
    {
        if str_eq(value, "NONE") {
            Some(Type::NoValue)
        } else if str_eq(value, "BOX") {
            Some(Type::Box)
        } else if str_eq(value, "CYLINDER") {
            Some(Type::Cylinder)
        } else if str_eq(value, "LINE_LIST") {
            Some(Type::LineList)
        } else if str_eq(value, "LINE_STRIP") {
            Some(Type::LineStrip)
        } else if str_eq(value, "POINTS") {
            Some(Type::Points)
        } else if str_eq(value, "SPHERE") {
            Some(Type::Sphere)
        } else if str_eq(value, "TEXT") {
            Some(Type::Text)
        } else if str_eq(value, "TRIANGLE_FAN") {
            Some(Type::TriangleFan)
        } else if str_eq(value, "TRIANGLE_LIST") {
            Some(Type::TriangleList)
        } else if str_eq(value, "TRIANGLE_STRIP") {
            Some(Type::TriangleStrip)
        } else if str_eq(value, "CONE") {
            Some(Type::Cone)
        } else if str_eq(value, "ARROW") {
            Some(Type::Arrow)
        } else if str_eq(value, "AXIS") {
            Some(Type::Axis)
        } else if str_eq(value, "CAPSULE") {
            Some(Type::Capsule)
        } else if str_eq(value, "ELLIPSOID") {
            Some(Type::Ellipsoid)
        } else {
            None
        }
    }
}

#[derive(Debug, Clone, Copy, PartialEq, Eq, Structural)]
pub enum Visibility {
    Gui,
    All,
}

pub open spec fn visibility_variant_name(v: Visibility) -> Seq<char> {
    match v {
        Visibility::Gui => "GUI"@,
        Visibility::All => "ALL"@,
    }
}

pub open spec fn visibility_from_variant_name(s: Seq<char>) -> Option<Visibility> {
    if s == "GUI"@ {
        Some(Visibility::Gui)
    } else if s == "ALL"@ {
        Some(Visibility::All)
    } else {
        None
    }
}

impl Visibility {
    /// The name of the variant in the message schema.
    pub fn as_str_name(&self) -> (r: &'static str)
        ensures
            r@ == visibility_variant_name(*self),
    {
        match self {
            Visibility::Gui => "GUI",
            Visibility::All => "ALL",
        }
    }

    /// The variant with the given schema name.
    pub fn from_str_name(value: &str) -> (r: Option<Self>)
        ensures
            r == visibility_from_variant_name(value@),
    {
        if str_eq(value, "GUI") {
            Some(Visibility::Gui)
        } else if str_eq(value, "ALL") {
            Some(Visibility::All)
        } else {
            None
        }
    }
}

#[derive(Debug, Clone, Copy, PartialEq, Eq, Structural)]
pub enum Action {
    AddModify,
    DeleteMarker,
    DeleteAll,
}

pub open spec fn action_variant_name(v: Action) -> Seq<char> {
    match v {
        Action::AddModify => "ADD_MODIFY"@,
        Action::DeleteMarker => "DELETE_MARKER"@,
        Action::DeleteAll => "DELETE_ALL"@,
    }
}

pub open spec fn action_from_variant_name(s: Seq<char>) -> Option<Action> {
    if s == "ADD_MODIFY"@ {
        Some(Action::AddModify)
    } else if s == "DELETE_MARKER"@ {
        Some(Action::DeleteMarker)
    } else if s == "DELETE_ALL"@ {
        Some(Action::DeleteAll)
    } else {
        None
    }
}

impl Action {
    /// The name of the variant in the message schema.
    pub fn as_str_name(&self) -> (r: &'static str)
        ensures
            r@ == action_variant_name(*self),
    {
        match self {
            Action::AddModify => "ADD_MODIFY",
            Action::DeleteMarker => "DELETE_MARKER",
            Action::DeleteAll => "DELETE_ALL",
        }
    }

    /// The variant with the given schema name.
    pub fn from_str_name(value: &str) -> (r: Option<Self>)
        ensures
            r == action_from_variant_name(value@),
    {
        if str_eq(value, "ADD_MODIFY") {
            Some(Action::AddModify)
        } else if str_eq(value, "DELETE_MARKER") {
            Some(Action::DeleteMarker)
        } else if str_eq(value, "DELETE_ALL") {
            Some(Action::DeleteAll)
        } else {
            None
        }
    }
}
} // verus!
