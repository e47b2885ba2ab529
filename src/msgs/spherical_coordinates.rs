//! Enumerations of the `spherical_coordinates` messages of the schema.
use vstd::prelude::*;

use crate::text::str_eq;

verus! {

#[derive(Debug, Clone, Copy, PartialEq, Eq, Structural)]
pub enum SurfaceModel {
    EarthWgs84,
    MoonScs,
    CustomSurface,
}

pub open spec fn surface_model_variant_name(v: SurfaceModel) -> Seq<char> {
    match v {
        SurfaceModel::EarthWgs84 => "EARTH_WGS84"@,
        SurfaceModel::MoonScs => "MOON_SCS"@,
        SurfaceModel::CustomSurface => "CUSTOM_SURFACE"@,
    }
}

pub open spec fn surface_model_from_variant_name(s: Seq<char>) -> Option<SurfaceModel> {
    if s == "EARTH_WGS84"@ {
        Some(SurfaceModel::EarthWgs84)
    } else if s == "MOON_SCS"@ {
        Some(SurfaceModel::MoonScs)
    } else if s == "CUSTOM_SURFACE"@ {
        Some(SurfaceModel::CustomSurface)
    } else {
        None
    }
}

impl SurfaceModel {
    /// The name of the variant in the message schema.
    pub fn as_str_name(&self) -> (r: &'static str)
        ensures
            r@ == surface_model_variant_name(*self),
    {
        match self {
            SurfaceModel::EarthWgs84 => "EARTH_WGS84",
            SurfaceModel::MoonScs => "MOON_SCS",
            SurfaceModel::CustomSurface => "CUSTOM_SURFACE",
        }
    }

    /// The variant with the given schema name.
    pub fn from_str_name(value: &str) -> (r: Option<Self>)
        ensures
            r == surface_model_from_variant_name(value@),
    {
        if str_eq(value, "EARTH_WGS84") {
            Some(SurfaceModel::EarthWgs84)
        } else if str_eq(value, "MOON_SCS") {
            Some(SurfaceModel::MoonScs)
        } else if str_eq(value, "CUSTOM_SURFACE") {
            Some(SurfaceModel::CustomSurface)
        } else {
            None
        }
    }
}
} // verus!
