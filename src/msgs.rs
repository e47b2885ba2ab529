//! Enumerations of the message schema, with their schema names.
use vstd::prelude::*;

use crate::text::str_eq;

pub mod geometry;
pub mod material_pbr;
pub mod material;
pub mod visual;
pub mod light;
pub mod sensor_noise;
pub mod lens;
pub mod camera_sensor;
pub mod joint;
pub mod particle_emitter;
pub mod entity;
pub mod spherical_coordinates;
pub mod log_status_log_file;
pub mod battery_state;
pub mod user_cmd;
pub mod any;
pub mod data_load_path_options;
pub mod parameter_error;
pub mod dvl_kinematic_estimate;
pub mod point_cloud_packed_field;
pub mod marker;
pub mod dvl_tracking_target;
pub mod fog;
pub mod shadows;
pub mod statistic;
pub mod dvl_velocity_tracking;
pub mod camera_info_distortion;
pub mod rest_response;
pub mod physics;
pub mod atmosphere;

verus! {

#[derive(Debug, Clone, Copy, PartialEq, Eq, Structural)]
pub enum PixelFormatType {
    UnknownPixelFormat,
    LInt8,
    LInt16,
    RgbInt8,
    RgbaInt8,
    BgraInt8,
    RgbInt16,
    RgbInt32,
    BgrInt8,
    BgrInt16,
    BgrInt32,
    RFloat16,
    RgbFloat16,
    RFloat32,
    RgbFloat32,
    BayerRggb8,
    BayerBggr8,
    BayerGbrg8,
    BayerGrbg8,
}

pub open spec fn pixel_format_type_variant_name(v: PixelFormatType) -> Seq<char> {
    match v {
        PixelFormatType::UnknownPixelFormat => "UNKNOWN_PIXEL_FORMAT"@,
        PixelFormatType::LInt8 => "L_INT8"@,
        PixelFormatType::LInt16 => "L_INT16"@,
        PixelFormatType::RgbInt8 => "RGB_INT8"@,
        PixelFormatType::RgbaInt8 => "RGBA_INT8"@,
        PixelFormatType::BgraInt8 => "BGRA_INT8"@,
        PixelFormatType::RgbInt16 => "RGB_INT16"@,
        PixelFormatType::RgbInt32 => "RGB_INT32"@,
        PixelFormatType::BgrInt8 => "BGR_INT8"@,
        PixelFormatType::BgrInt16 => "BGR_INT16"@,
        PixelFormatType::BgrInt32 => "BGR_INT32"@,
        PixelFormatType::RFloat16 => "R_FLOAT16"@,
        PixelFormatType::RgbFloat16 => "RGB_FLOAT16"@,
        PixelFormatType::RFloat32 => "R_FLOAT32"@,
        PixelFormatType::RgbFloat32 => "RGB_FLOAT32"@,
        PixelFormatType::BayerRggb8 => "BAYER_RGGB8"@,
        PixelFormatType::BayerBggr8 => "BAYER_BGGR8"@,
        PixelFormatType::BayerGbrg8 => "BAYER_GBRG8"@,
        PixelFormatType::BayerGrbg8 => "BAYER_GRBG8"@,
    }
}

pub open spec fn pixel_format_type_from_variant_name(s: Seq<char>) -> Option<PixelFormatType> {
    if s == "UNKNOWN_PIXEL_FORMAT"@ {
        Some(PixelFormatType::UnknownPixelFormat)
    } else if s == "L_INT8"@ {
        Some(PixelFormatType::LInt8)
    } else if s == "L_INT16"@ {
        Some(PixelFormatType::LInt16)
    } else if s == "RGB_INT8"@ {
        Some(PixelFormatType::RgbInt8)
    } else if s == "RGBA_INT8"@ {
        Some(PixelFormatType::RgbaInt8)
    } else if s == "BGRA_INT8"@ {
        Some(PixelFormatType::BgraInt8)
    } else if s == "RGB_INT16"@ {
        Some(PixelFormatType::RgbInt16)
    } else if s == "RGB_INT32"@ {
        Some(PixelFormatType::RgbInt32)
    } else if s == "BGR_INT8"@ {
        Some(PixelFormatType::BgrInt8)
    } else if s == "BGR_INT16"@ {
        Some(PixelFormatType::BgrInt16)
    } else if s == "BGR_INT32"@ {
        Some(PixelFormatType::BgrInt32)
    } else if s == "R_FLOAT16"@ {
        Some(PixelFormatType::RFloat16)
    } else if s == "RGB_FLOAT16"@ {
        Some(PixelFormatType::RgbFloat16)
    } else if s == "R_FLOAT32"@ {
        Some(PixelFormatType::RFloat32)
    } else if s == "RGB_FLOAT32"@ {
        Some(PixelFormatType::RgbFloat32)
    } else if s == "BAYER_RGGB8"@ {
        Some(PixelFormatType::BayerRggb8)
    } else if s == "BAYER_BGGR8"@ {
        Some(PixelFormatType::BayerBggr8)
    } else if s == "BAYER_GBRG8"@ {
        Some(PixelFormatType::BayerGbrg8)
    } else if s == "BAYER_GRBG8"@ {
        Some(PixelFormatType::BayerGrbg8)
    } else {
        None
    }
}

impl PixelFormatType {
    /// The name of the variant in the message schema.
    pub fn as_str_name(&self) -> (r: &'static str)
        ensures
            r@ == pixel_format_type_variant_name(*self),
    {
        match self {
            PixelFormatType::UnknownPixelFormat => "UNKNOWN_PIXEL_FORMAT",
            PixelFormatType::LInt8 => "L_INT8",
            PixelFormatType::LInt16 => "L_INT16",
            PixelFormatType::RgbInt8 => "RGB_INT8",
            PixelFormatType::RgbaInt8 => "RGBA_INT8",
            PixelFormatType::BgraInt8 => "BGRA_INT8",
            PixelFormatType::RgbInt16 => "RGB_INT16",
            PixelFormatType::RgbInt32 => "RGB_INT32",
            PixelFormatType::BgrInt8 => "BGR_INT8",
            PixelFormatType::BgrInt16 => "BGR_INT16",
            PixelFormatType::BgrInt32 => "BGR_INT32",
            PixelFormatType::RFloat16 => "R_FLOAT16",
            PixelFormatType::RgbFloat16 => "RGB_FLOAT16",
            PixelFormatType::RFloat32 => "R_FLOAT32",
            PixelFormatType::RgbFloat32 => "RGB_FLOAT32",
            PixelFormatType::BayerRggb8 => "BAYER_RGGB8",
            PixelFormatType::BayerBggr8 => "BAYER_BGGR8",
            PixelFormatType::BayerGbrg8 => "BAYER_GBRG8",
            PixelFormatType::BayerGrbg8 => "BAYER_GRBG8",
        }
    }

    /// The variant with the given schema name.
    pub fn from_str_name(value: &str) -> (r: Option<Self>)
        ensures
            r == pixel_format_type_from_variant_name(value@),
    {
        if str_eq(value, "UNKNOWN_PIXEL_FORMAT") {
            Some(PixelFormatType::UnknownPixelFormat)
        } else if str_eq(value, "L_INT8") {
            Some(PixelFormatType::LInt8)
        } else if str_eq(value, "L_INT16") {
            Some(PixelFormatType::LInt16)
        } else if str_eq(value, "RGB_INT8") {
            Some(PixelFormatType::RgbInt8)
        } else if str_eq(value, "RGBA_INT8") {
            Some(PixelFormatType::RgbaInt8)
        } else if str_eq(value, "BGRA_INT8") {
            Some(PixelFormatType::BgraInt8)
        } else if str_eq(value, "RGB_INT16") {
            Some(PixelFormatType::RgbInt16)
        } else if str_eq(value, "RGB_INT32") {
            Some(PixelFormatType::RgbInt32)
        } else if str_eq(value, "BGR_INT8") {
            Some(PixelFormatType::BgrInt8)
        } else if str_eq(value, "BGR_INT16") {
            Some(PixelFormatType::BgrInt16)
        } else if str_eq(value, "BGR_INT32") {
            Some(PixelFormatType::BgrInt32)
        } else if str_eq(value, "R_FLOAT16") {
            Some(PixelFormatType::RFloat16)
        } else if str_eq(value, "RGB_FLOAT16") {
            Some(PixelFormatType::RgbFloat16)
        } else if str_eq(value, "R_FLOAT32") {
            Some(PixelFormatType::RFloat32)
        } else if str_eq(value, "RGB_FLOAT32") {
            Some(PixelFormatType::RgbFloat32)
        } else if str_eq(value, "BAYER_RGGB8") {
            Some(PixelFormatType::BayerRggb8)
        } else if str_eq(value, "BAYER_BGGR8") {
            Some(PixelFormatType::BayerBggr8)
        } else if str_eq(value, "BAYER_GBRG8") {
            Some(PixelFormatType::BayerGbrg8)
        } else if str_eq(value, "BAYER_GRBG8") {
            Some(PixelFormatType::BayerGrbg8)
        } else {
            None
        }
    }
}

#[derive(Debug, Clone, Copy, PartialEq, Eq, Structural)]
pub enum SphericalCoordinatesType {
    Spherical,
    Ecef,
    Global,
    Local,
    Local2,
}

pub open spec fn spherical_coordinates_type_variant_name(v: SphericalCoordinatesType) -> Seq<char> {
    match v {
        SphericalCoordinatesType::Spherical => "SPHERICAL"@,
        SphericalCoordinatesType::Ecef => "ECEF"@,
        SphericalCoordinatesType::Global => "GLOBAL"@,
        SphericalCoordinatesType::Local => "LOCAL"@,
        SphericalCoordinatesType::Local2 => "LOCAL2"@,
    }
}

pub open spec fn spherical_coordinates_type_from_variant_name(s: Seq<char>) -> Option<SphericalCoordinatesType> {
    if s == "SPHERICAL"@ {
        Some(SphericalCoordinatesType::Spherical)
    } else if s == "ECEF"@ {
        Some(SphericalCoordinatesType::Ecef)
    } else if s == "GLOBAL"@ {
        Some(SphericalCoordinatesType::Global)
    } else if s == "LOCAL"@ {
        Some(SphericalCoordinatesType::Local)
    } else if s == "LOCAL2"@ {
        Some(SphericalCoordinatesType::Local2)
    } else {
        None
    }
}

impl SphericalCoordinatesType {
    /// The name of the variant in the message schema.
    pub fn as_str_name(&self) -> (r: &'static str)
        ensures
            r@ == spherical_coordinates_type_variant_name(*self),
    {
        match self {
            SphericalCoordinatesType::Spherical => "SPHERICAL",
            SphericalCoordinatesType::Ecef => "ECEF",
            SphericalCoordinatesType::Global => "GLOBAL",
            SphericalCoordinatesType::Local => "LOCAL",
            SphericalCoordinatesType::Local2 => "LOCAL2",
        }
    }

    /// The variant with the given schema name.
    pub fn from_str_name(value: &str) -> (r: Option<Self>)
        ensures
            r == spherical_coordinates_type_from_variant_name(value@),
    {
        if str_eq(value, "SPHERICAL") {
            Some(SphericalCoordinatesType::Spherical)
        } else if str_eq(value, "ECEF") {
            Some(SphericalCoordinatesType::Ecef)
        } else if str_eq(value, "GLOBAL") {
            Some(SphericalCoordinatesType::Global)
        } else if str_eq(value, "LOCAL") {
            Some(SphericalCoordinatesType::Local)
        } else if str_eq(value, "LOCAL2") {
            Some(SphericalCoordinatesType::Local2)
        } else {
            None
        }
    }
}
} // verus!
