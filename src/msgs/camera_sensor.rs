//! Enumerations of the `camera_sensor` messages of the schema.
use vstd::prelude::*;

use crate::text::str_eq;

verus! {

#[derive(Debug, Clone, Copy, PartialEq, Eq, Structural)]
pub enum BoundingBoxType {
    NoBoundingBox,
    FullBox2d,
    VisibleBox2d,
    Box3d,
}

pub open spec fn bounding_box_type_variant_name(v: BoundingBoxType) -> Seq<char> {
    match v {
        BoundingBoxType::NoBoundingBox => "NO_BOUNDING_BOX"@,
        BoundingBoxType::FullBox2d => "FULL_BOX_2D"@,
        BoundingBoxType::VisibleBox2d => "VISIBLE_BOX_2D"@,
        BoundingBoxType::Box3d => "BOX_3D"@,
    }
}

pub open spec fn bounding_box_type_from_variant_name(s: Seq<char>) -> Option<BoundingBoxType> {
    if s == "NO_BOUNDING_BOX"@ {
        Some(BoundingBoxType::NoBoundingBox)
    } else if s == "FULL_BOX_2D"@ {
        Some(BoundingBoxType::FullBox2d)
    } else if s == "VISIBLE_BOX_2D"@ {
        Some(BoundingBoxType::VisibleBox2d)
    } else if s == "BOX_3D"@ {
        Some(BoundingBoxType::Box3d)
    } else {
        None
    }
}

impl BoundingBoxType {
    /// The name of the variant in the message schema.
    pub fn as_str_name(&self) -> (r: &'static str)
        ensures
            r@ == bounding_box_type_variant_name(*self),
    {
        match self {
            BoundingBoxType::NoBoundingBox => "NO_BOUNDING_BOX",
            BoundingBoxType::FullBox2d => "FULL_BOX_2D",
            BoundingBoxType::VisibleBox2d => "VISIBLE_BOX_2D",
            BoundingBoxType::Box3d => "BOX_3D",
        }
    }

    /// The variant with the given schema name.
    pub fn from_str_name(value: &str) -> (r: Option<Self>)
        ensures
            r == bounding_box_type_from_variant_name(value@),
    {
        if str_eq(value, "NO_BOUNDING_BOX") {
            Some(BoundingBoxType::NoBoundingBox)
        } else if str_eq(value, "FULL_BOX_2D") {
            Some(BoundingBoxType::FullBox2d)
        } else if str_eq(value, "VISIBLE_BOX_2D") {
            Some(BoundingBoxType::VisibleBox2d)
        } else if str_eq(value, "BOX_3D") {
            Some(BoundingBoxType::Box3d)
        } else {
            None
        }
    }
}

#[derive(Debug, Clone, Copy, PartialEq, Eq, Structural)]
pub enum SegmentationType {
    NoSegmentation,
    Semantic,
    Panoptic,
}

pub open spec fn segmentation_type_variant_name(v: SegmentationType) -> Seq<char> {
    match v {
        SegmentationType::NoSegmentation => "NO_SEGMENTATION"@,
        SegmentationType::Semantic => "SEMANTIC"@,
        SegmentationType::Panoptic => "PANOPTIC"@,
    }
}

pub open spec fn segmentation_type_from_variant_name(s: Seq<char>) -> Option<SegmentationType> {
    if s == "NO_SEGMENTATION"@ {
        Some(SegmentationType::NoSegmentation)
    } else if s == "SEMANTIC"@ {
        Some(SegmentationType::Semantic)
    } else if s == "PANOPTIC"@ {
        Some(SegmentationType::Panoptic)
    } else {
        None
    }
}

impl SegmentationType {
    /// The name of the variant in the message schema.
    pub fn as_str_name(&self) -> (r: &'static str)
        ensures
            r@ == segmentation_type_variant_name(*self),
    {
        match self {
            SegmentationType::NoSegmentation => "NO_SEGMENTATION",
            SegmentationType::Semantic => "SEMANTIC",
            SegmentationType::Panoptic => "PANOPTIC",
        }
    }

    /// The variant with the given schema name.
    pub fn from_str_name(value: &str) -> (r: Option<Self>)
        ensures
            r == segmentation_type_from_variant_name(value@),
    {
        if str_eq(value, "NO_SEGMENTATION") {
            Some(SegmentationType::NoSegmentation)
        } else if str_eq(value, "SEMANTIC") {
            Some(SegmentationType::Semantic)
        } else if str_eq(value, "PANOPTIC") {
            Some(SegmentationType::Panoptic)
        } else {
            None
        }
    }
}
} // verus!
