//! Enumerations of the `material.pbr` messages of the schema.
use vstd::prelude::*;

use crate::text::str_eq;

verus! {

#[derive(Debug, Clone, Copy, PartialEq, Eq, Structural)]
pub enum WorkflowType {
    NoValue,
    Metal,
    Specular,
}

pub open spec fn workflow_type_variant_name(v: WorkflowType) -> Seq<char> {
    match v {
        WorkflowType::NoValue => "NONE"@,
        WorkflowType::Metal => "METAL"@,
        WorkflowType::Specular => "SPECULAR"@,
    }
}

pub open spec fn workflow_type_from_variant_name(s: Seq<char>) -> Option<WorkflowType> {
    if s == "NONE"@ {
        Some(WorkflowType::NoValue)
    } else if s == "METAL"@ {
        Some(WorkflowType::Metal)
    } else if s == "SPECULAR"@ {
        Some(WorkflowType::Specular)
    } else {
        None
    }
}

impl WorkflowType {
    /// The name of the variant in the message schema.
    pub fn as_str_name(&self) -> (r: &'static str)
        ensures
            r@ == workflow_type_variant_name(*self),
    {
        match self {
            WorkflowType::NoValue => "NONE",
            WorkflowType::Metal => "METAL",
            WorkflowType::Specular => "SPECULAR",
        }
    }

    /// The variant with the given schema name.
    pub fn from_str_name(value: &str) -> (r: Option<Self>)
        ensures
            r == workflow_type_from_variant_name(value@),
    {
        if str_eq(value, "NONE") {
            Some(WorkflowType::NoValue)
        } else if str_eq(value, "METAL") {
            Some(WorkflowType::Metal)
        } else if str_eq(value, "SPECULAR") {
            Some(WorkflowType::Specular)
        } else {
            None
        }
    }
}
} // verus!
