//! Enumerations of the `statistic` messages of the schema.
use vstd::prelude::*;

use crate::text::str_eq;

verus! {

#[derive(Debug, Clone, Copy, PartialEq, Eq, Structural)]
pub enum DataType {
    Uninitialized,
    Average,
    Minimum,
    Maximum,
    Variance,
    Stddev,
    SampleCount,
    RootMeanSquare,
    MaxAbsValue,
}

pub open spec fn data_type_variant_name(v: DataType) -> Seq<char> {
    match v {
        DataType::Uninitialized => "UNINITIALIZED"@,
        DataType::Average => "AVERAGE"@,
        DataType::Minimum => "MINIMUM"@,
        DataType::Maximum => "MAXIMUM"@,
        DataType::Variance => "VARIANCE"@,
        DataType::Stddev => "STDDEV"@,
        DataType::SampleCount => "SAMPLE_COUNT"@,
        DataType::RootMeanSquare => "ROOT_MEAN_SQUARE"@,
        DataType::MaxAbsValue => "MAX_ABS_VALUE"@,
    }
}

pub open spec fn data_type_from_variant_name(s: Seq<char>) -> Option<DataType> {
    if s == "UNINITIALIZED"@ {
        Some(DataType::Uninitialized)
    } else if s == "AVERAGE"@ {
        Some(DataType::Average)
    } else if s == "MINIMUM"@ {
        Some(DataType::Minimum)
    } else if s == "MAXIMUM"@ {
        Some(DataType::Maximum)
    } else if s == "VARIANCE"@ {
        Some(DataType::Variance)
    } else if s == "STDDEV"@ {
        Some(DataType::Stddev)
    } else if s == "SAMPLE_COUNT"@ {
        Some(DataType::SampleCount)
    } else if s == "ROOT_MEAN_SQUARE"@ {
        Some(DataType::RootMeanSquare)
    } else if s == "MAX_ABS_VALUE"@ {
        Some(DataType::MaxAbsValue)
    } else {
        None
    }
}

impl DataType {
    /// The name of the variant in the message schema.
    pub fn as_str_name(&self) -> (r: &'static str)
        ensures
            r@ == data_type_variant_name(*self),
    {
        match self {
            DataType::Uninitialized => "UNINITIALIZED",
            DataType::Average => "AVERAGE",
            DataType::Minimum => "MINIMUM",
            DataType::Maximum => "MAXIMUM",
            DataType::Variance => "VARIANCE",
            DataType::Stddev => "STDDEV",
            DataType::SampleCount => "SAMPLE_COUNT",
            DataType::RootMeanSquare => "ROOT_MEAN_SQUARE",
            DataType::MaxAbsValue => "MAX_ABS_VALUE",
        }
    }

    /// The variant with the given schema name.
    pub fn from_str_name(value: &str) -> (r: Option<Self>)
        ensures
            r == data_type_from_variant_name(value@),
    {
        if str_eq(value, "UNINITIALIZED") {
            Some(DataType::Uninitialized)
        } else if str_eq(value, "AVERAGE") {
            Some(DataType::Average)
        } else if str_eq(value, "MINIMUM") {
            Some(DataType::Minimum)
        } else if str_eq(value, "MAXIMUM") {
            Some(DataType::Maximum)
        } else if str_eq(value, "VARIANCE") {
            Some(DataType::Variance)
        } else if str_eq(value, "STDDEV") {
            Some(DataType::Stddev)
        } else if str_eq(value, "SAMPLE_COUNT") {
            Some(DataType::SampleCount)
        } else if str_eq(value, "ROOT_MEAN_SQUARE") {
            Some(DataType::RootMeanSquare)
        } else if str_eq(value, "MAX_ABS_VALUE") {
            Some(DataType::MaxAbsValue)
        } else {
            None
        }
    }
}
} // verus!
