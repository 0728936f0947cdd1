use vstd::prelude::*;

verus! {

/// OpenGL enumerant values used by samplers and texture storage.
pub const GL_CLAMP_TO_EDGE: u32 = 0x812F;
pub const GL_REPEAT: u32 = 0x2901;
pub const GL_MIRRORED_REPEAT: u32 = 0x8370;
pub const GL_CLAMP_TO_BORDER: u32 = 0x812D;
pub const GL_NEAREST: u32 = 0x2600;
pub const GL_LINEAR: u32 = 0x2601;
pub const GL_SRGB: u32 = 0x8C40;
pub const GL_SRGB_ALPHA: u32 = 0x8C42;
pub const GL_RGB: u32 = 0x1907;
pub const GL_RGBA: u32 = 0x1908;

/// How texture coordinates outside [0, 1] are resolved along one axis.
#[derive(Clone, Copy, Debug, PartialEq, Eq, Structural)]
pub enum AddressMode {
    ClampToEdge,
    Repeat,
    MirrorRepeat,
    ClampToBorder,
}

pub open spec fn address_gl(mode: AddressMode) -> u32 {
    match mode {
        AddressMode::ClampToEdge => GL_CLAMP_TO_EDGE,
        AddressMode::Repeat => GL_REPEAT,
        AddressMode::MirrorRepeat => GL_MIRRORED_REPEAT,
        AddressMode::ClampToBorder => GL_CLAMP_TO_BORDER,
    }
}

impl AddressMode {
    /// The OpenGL wrap-mode value of this mode.
    pub fn to_gl(self) -> (r: i32)
        ensures
            r as u32 == address_gl(self),
    {
        let v: u32 = match self {
            AddressMode::ClampToEdge => GL_CLAMP_TO_EDGE,
            AddressMode::Repeat => GL_REPEAT,
            AddressMode::MirrorRepeat => GL_MIRRORED_REPEAT,
            AddressMode::ClampToBorder => GL_CLAMP_TO_BORDER,
        };
        v as i32
    }
}

/// Texel filtering for minification or magnification.
#[derive(Clone, Copy, Debug, PartialEq, Eq, Structural)]
pub enum FilterMode {
    Nearest,
    Linear,
}

pub open spec fn filter_gl(mode: FilterMode) -> u32 {
    match mode {
        FilterMode::Nearest => GL_NEAREST,
        FilterMode::Linear => GL_LINEAR,
    }
}

impl FilterMode {
    /// The OpenGL filter value of this mode.
    pub fn to_gl(self) -> (r: i32)
        ensures
            r as u32 == filter_gl(self),
    {
        let v: u32 = match self {
            FilterMode::Nearest => GL_NEAREST,
            FilterMode::Linear => GL_LINEAR,
        };
        v as i32
    }
}

/// A border colour with one byte per channel; `(0, 0, 0, 0)` is transparent black.
#[derive(Clone, Copy, Debug, PartialEq, Eq, Structural)]
pub struct BorderColor {
    pub r: u8,
    pub g: u8,
    pub b: u8,
    pub a: u8,
}

impl BorderColor {
    pub fn transparent() -> (r: BorderColor)
        ensures
            r == (BorderColor { r: 0, g: 0, b: 0, a: 0 }),
    {
        BorderColor { r: 0, g: 0, b: 0, a: 0 }
    }
}

/// The state of one hardware sampler object: its id and its parameters.
#[derive(Clone, Copy, Debug, PartialEq, Eq, Structural)]
pub struct SamplerState {
    pub id: u32,
    pub wrap_s: AddressMode,
    pub wrap_t: AddressMode,
    pub min_filter: FilterMode,
    pub mag_filter: FilterMode,
    pub border: Option<BorderColor>,
}

pub open spec fn storage_format_spec(is_srgb: bool, has_alpha: bool) -> u32 {
    if is_srgb {
        if has_alpha { GL_SRGB_ALPHA } else { GL_SRGB }
    } else {
        if has_alpha { GL_RGBA } else { GL_RGB }
    }
}

/// The internal storage format of an uploaded texture, chosen from its
/// colour space and whether its source carries alpha.
pub fn storage_format(is_srgb: bool, has_alpha: bool) -> (r: u32)
    ensures
        r == storage_format_spec(is_srgb, has_alpha),
{
    if is_srgb {
        if has_alpha { GL_SRGB_ALPHA } else { GL_SRGB }
    } else {
        if has_alpha { GL_RGBA } else { GL_RGB }
    }
}

} // verus!
