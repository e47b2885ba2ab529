//! Enumerations of the `shadows` messages of the schema.
use vstd::prelude::*;

use crate::text::str_eq;

verus! {

#[derive(Debug, Clone, Copy, PartialEq, Eq, Structural)]
pub enum ShadowType {
    StencilAdditive,
    StencilModulative,
    TextureAdditive,
    TextureModulative,
}

pub open spec fn shadow_type_variant_name(v: ShadowType) -> Seq<char> {
    match v {
        ShadowType::StencilAdditive => "STENCIL_ADDITIVE"@,
        ShadowType::StencilModulative => "STENCIL_MODULATIVE"@,
        ShadowType::TextureAdditive => "TEXTURE_ADDITIVE"@,
        ShadowType::TextureModulative => "TEXTURE_MODULATIVE"@,
    }
}

pub open spec fn shadow_type_from_variant_name(s: Seq<char>) -> Option<ShadowType> {
    if s == "STENCIL_ADDITIVE"@ {
        Some(ShadowType::StencilAdditive)
    } else if s == "STENCIL_MODULATIVE"@ {
        Some(ShadowType::StencilModulative)
    } else if s == "TEXTURE_ADDITIVE"@ {
        Some(ShadowType::TextureAdditive)
    } else if s == "TEXTURE_MODULATIVE"@ {
        Some(ShadowType::TextureModulative)
    } else {
        None
    }
}

impl ShadowType {
    /// The name of the variant in the message schema.
    pub fn as_str_name(&self) -> (r: &'static str)
        ensures
            r@ == shadow_type_variant_name(*self),
    {
        match self {
            ShadowType::StencilAdditive => "STENCIL_ADDITIVE",
            ShadowType::StencilModulative => "STENCIL_MODULATIVE",
            ShadowType::TextureAdditive => "TEXTURE_ADDITIVE",
            ShadowType::TextureModulative => "TEXTURE_MODULATIVE",
        }
    }

    /// The variant with the given schema name.
    pub fn from_str_name(value: &str) -> (r: Option<Self>)
        ensures
            r == shadow_type_from_variant_name(value@),
    {
        if str_eq(value, "STENCIL_ADDITIVE") {
            Some(ShadowType::StencilAdditive)
        } else if str_eq(value, "STENCIL_MODULATIVE") {
            Some(ShadowType::StencilModulative)
        } else if str_eq(value, "TEXTURE_ADDITIVE") {
            Some(ShadowType::TextureAdditive)
        } else if str_eq(value, "TEXTURE_MODULATIVE") {
            Some(ShadowType::TextureModulative)
        } else {
            None
        }
    }
}
} // verus!
