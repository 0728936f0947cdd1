use vstd::prelude::*;

use crate::builder::TextureBuilder;
use crate::sampler::{AddressMode, BorderColor};

verus! {

/// Bits of the flags word that unmanaged callers pass when creating a texture.
pub const OPENGL_TEX_MAPTRANS: u32 = 0x01;
pub const OPENGL_TEX_MIPMAPS: u32 = 0x02;
pub const OPENGL_TEX_VFLIP: u32 = 0x04;
pub const OPENGL_TEX_SKIPCACHE: u32 = 0x08;
pub const OPENGL_TEX_SDF: u32 = 0x10;
pub const OPENGL_TEX_CLAMP_ALPHA: u32 = 0x20;
pub const OPENGL_TEX_NOTSRGB: u32 = 0x40;

/// The independent toggles of a flags word.
#[derive(Clone, Copy, Debug, PartialEq, Eq, Structural)]
pub struct Flags {
    pub maptrans: bool,
    pub mipmaps: bool,
    pub vflip: bool,
    pub skipcache: bool,
    pub sdf: bool,
    pub clamp_alpha: bool,
    pub notsrgb: bool,
}

impl Flags {
    /// Decodes a flags word; bits outside the known ones are ignored.
    pub fn from(flags: u32) -> (r: Flags)
        ensures
            r.maptrans == (flags & OPENGL_TEX_MAPTRANS != 0),
            r.mipmaps == (flags & OPENGL_TEX_MIPMAPS != 0),
            r.vflip == (flags & OPENGL_TEX_VFLIP != 0),
            r.skipcache == (flags & OPENGL_TEX_SKIPCACHE != 0),
            r.sdf == (flags & OPENGL_TEX_SDF != 0),
            r.clamp_alpha == (flags & OPENGL_TEX_CLAMP_ALPHA != 0),
            r.notsrgb == (flags & OPENGL_TEX_NOTSRGB != 0),
    {
        Flags {
            maptrans: flags & OPENGL_TEX_MAPTRANS != 0,
            mipmaps: flags & OPENGL_TEX_MIPMAPS != 0,
            vflip: flags & OPENGL_TEX_VFLIP != 0,
            skipcache: flags & OPENGL_TEX_SKIPCACHE != 0,
            sdf: flags & OPENGL_TEX_SDF != 0,
            clamp_alpha: flags & OPENGL_TEX_CLAMP_ALPHA != 0,
            notsrgb: flags & OPENGL_TEX_NOTSRGB != 0,
        }
    }
}

/// The builder for a sprite sheet of `sx` columns and `sy` rows read from
/// `path`: gamma-encoded unless not-sRGB is set, and with a transparent
/// border and clamp-to-border addressing where clamp-alpha is set.
pub fn sprite_request(path: &str, sx: usize, sy: usize, flags: u32) -> (r: TextureBuilder)
    ensures
        ({
            &&& r.source matches crate::builder::TextureSource::Path(p) && p@ == path@
            &&& r.name@ == path@
            &&& r.sx == sx && r.sy == sy
            &&& r.w == 0 && r.h == 0
            &&& r.is_srgb == !(flags & OPENGL_TEX_NOTSRGB != 0)
            &&& r.mipmaps == (flags & OPENGL_TEX_MIPMAPS != 0)
            &&& r.skip_cache == (flags & OPENGL_TEX_SKIPCACHE != 0)
            &&& r.is_sdf == (flags & OPENGL_TEX_SDF != 0)
            &&& r.min_filter == crate::sampler::FilterMode::Linear
            &&& r.mag_filter == crate::sampler::FilterMode::Linear
            &&& if flags & OPENGL_TEX_CLAMP_ALPHA != 0 {
                &&& r.border_value == Some(BorderColor { r: 0, g: 0, b: 0, a: 0 })
                &&& r.address_u == AddressMode::ClampToBorder
                &&& r.address_v == AddressMode::ClampToBorder
            } else {
                &&& r.border_value is None
                &&& r.address_u == AddressMode::Repeat
                &&& r.address_v == AddressMode::Repeat
            }
        }),
{
    let f = Flags::from(flags);
    let mut builder = TextureBuilder::new().from_path(path).sx(sx).sy(sy).srgb(!f.notsrgb).mipmaps(
        f.mipmaps,
    ).skip_cache(f.skipcache).sdf(f.sdf);
    if f.clamp_alpha {
        builder = builder.border(Some(BorderColor::transparent()));
    }
    builder
}

} // verus!
