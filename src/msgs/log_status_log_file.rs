//! Enumerations of the `log_status.log_file` messages of the schema.
use vstd::prelude::*;

use crate::text::str_eq;

verus! {

#[derive(Debug, Clone, Copy, PartialEq, Eq, Structural)]
pub enum Units {
    Bytes,
    KBytes,
    MBytes,
    GBytes,
}

pub open spec fn units_variant_name(v: Units) -> Seq<char> {
    match v {
        Units::Bytes => "BYTES"@,
        Units::KBytes => "K_BYTES"@,
        Units::MBytes => "M_BYTES"@,
        Units::GBytes => "G_BYTES"@,
    }
}

pub open spec fn units_from_variant_name(s: Seq<char>) -> Option<Units> {
    if s == "BYTES"@ {
        Some(Units::Bytes)
    } else if s == "K_BYTES"@ {
        Some(Units::KBytes)
    } else if s == "M_BYTES"@ {
        Some(Units::MBytes)
    } else if s == "G_BYTES"@ {
        Some(Units::GBytes)
    } else {
        None
    }
}

impl Units {
    /// The name of the variant in the message schema.
    pub fn as_str_name(&self) -> (r: &'static str)
        ensures
            r@ == units_variant_name(*self),
    {
        match self {
            Units::Bytes => "BYTES",
            Units::KBytes => "K_BYTES",
            Units::MBytes => "M_BYTES",
            Units::GBytes => "G_BYTES",
        }
    }

    /// The variant with the given schema name.
    pub fn from_str_name(value: &str) -> (r: Option<Self>)
        ensures
            r == units_from_variant_name(value@),
    {
        if str_eq(value, "BYTES") {
            Some(Units::Bytes)
        } else if str_eq(value, "K_BYTES") {
            Some(Units::KBytes)
        } else if str_eq(value, "M_BYTES") {
            Some(Units::MBytes)
        } else if str_eq(value, "G_BYTES") {
            Some(Units::GBytes)
        } else {
            None
        }
    }
}
} // verus!
