use vstd::prelude::*;

use crate::error::TextureError;
use crate::manager::{Texture, TextureManager, Upload};
use crate::pixels::{DecodedImage, decode_bytes, decoded, rgba_from_raw};
use crate::sampler::{AddressMode, BorderColor, FilterMode, SamplerState};

verus! {

/// Where a texture's pixels come from.
pub enum TextureSource {
    /// A logical path; its bytes are read by the caller.
    Path(String),
    /// Raw RGBA8 pixels of the builder's declared width and height.
    Data(Vec<u8>),
    /// An image that is already decoded.
    Image(DecodedImage),
    /// No source was given.
    Unset,
}

/// Configuration of one texture view, consumed by `build`.
pub struct TextureBuilder {
    /// The logical name: cache key, path and display name of the view.
    pub name: String,
    pub source: TextureSource,
    pub w: usize,
    pub h: usize,
    pub sx: usize,
    pub sy: usize,
    pub is_srgb: bool,
    pub is_sdf: bool,
    pub skip_cache: bool,
    pub border_value: Option<BorderColor>,
    pub address_u: AddressMode,
    pub address_v: AddressMode,
    pub mag_filter: FilterMode,
    pub min_filter: FilterMode,
    pub mipmaps: bool,
}

/// What resolving `source` gives, as (width, height, has alpha, pixels).
pub open spec fn loaded(
    source: TextureSource,
    is_sdf: bool,
    w: usize,
    h: usize,
    bytes: Option<Vec<u8>>,
) -> Result<(u32, u32, bool, Seq<u8>), TextureError> {
    match source {
        TextureSource::Path(_) => if is_sdf {
            Err(TextureError::Unsupported)
        } else {
            match bytes {
                None => Err(TextureError::Source),
                Some(b) => match decoded(b@) {
                    Some(img) => Ok(img),
                    None => Err(TextureError::Decode),
                },
            }
        },
        TextureSource::Data(d) => if w <= u32::MAX && h <= u32::MAX && 4 * w * h == d@.len() {
            Ok((w as u32, h as u32, true, d@))
        } else {
            Err(TextureError::Decode)
        },
        TextureSource::Image(img) => Ok(img@),
        TextureSource::Unset => Err(TextureError::Unsupported),
    }
}

/// The error of a source that can never be resolved, whatever is read.
pub open spec fn source_error(source: TextureSource, is_sdf: bool) -> Option<TextureError> {
    match source {
        TextureSource::Unset => Some(TextureError::Unsupported),
        TextureSource::Path(_) => if is_sdf {
            Some(TextureError::Unsupported)
        } else {
            None
        },
        _ => None,
    }
}

impl TextureBuilder {
    /// The cache key: empty, so never cached, when the cache is skipped.
    pub open spec fn key(&self) -> Seq<char> {
        if self.skip_cache {
            Seq::empty()
        } else {
            self.name@
        }
    }

    /// The sampler that `build` configures; a border colour forces
    /// clamp-to-border addressing on both axes.
    pub open spec fn sampler_spec(&self, id: u32) -> SamplerState {
        SamplerState {
            id,
            wrap_s: if self.border_value is Some {
                AddressMode::ClampToBorder
            } else {
                self.address_u
            },
            wrap_t: if self.border_value is Some {
                AddressMode::ClampToBorder
            } else {
                self.address_v
            },
            min_filter: self.min_filter,
            mag_filter: self.mag_filter,
            border: self.border_value,
        }
    }

    pub fn new() -> (r: Self)
        ensures
            r.name@.len() == 0,
            r.source is Unset,
            r.w == 0 && r.h == 0,
            r.sx == 1 && r.sy == 1,
            r.is_srgb && !r.is_sdf && !r.skip_cache,
            r.border_value is None,
            r.address_u == AddressMode::Repeat && r.address_v == AddressMode::Repeat,
            r.mag_filter == FilterMode::Linear && r.min_filter == FilterMode::Linear,
            !r.mipmaps,
    {
        TextureBuilder {
            name: String::new(),
            source: TextureSource::Unset,
            w: 0,
            h: 0,
            sx: 1,
            sy: 1,
            is_srgb: true,
            is_sdf: false,
            skip_cache: false,
            border_value: None,
            address_u: AddressMode::Repeat,
            address_v: AddressMode::Repeat,
            mag_filter: FilterMode::Linear,
            min_filter: FilterMode::Linear,
            mipmaps: false,
        }
    }

    /// Reads the pixels from `path`, which also becomes the logical name.
    pub fn from_path(self, path: &str) -> (r: Self)
        ensures
            r.source matches TextureSource::Path(p) && p@ == path@,
            r.name@ == path@,
            r == (TextureBuilder { name: r.name, source: r.source, ..self }),
    {
        let mut b = self;
        b.source = TextureSource::Path(path.to_owned());
        b.name = path.to_owned();
        b
    }

    /// Stores the texture gamma-encoded (`true`) or linear.
    pub fn srgb(self, v: bool) -> (r: Self)
        ensures
            r == (TextureBuilder { is_srgb: v, ..self }),
    {
        let mut b = self;
        b.is_srgb = v;
        b
    }

    /// Requests the signed-distance-field variant.
    pub fn sdf(self, v: bool) -> (r: Self)
        ensures
            r == (TextureBuilder { is_sdf: v, ..self }),
    {
        let mut b = self;
        b.is_sdf = v;
        b
    }

    /// Declared width of a raw pixel buffer.
    pub fn width(self, v: usize) -> (r: Self)
        ensures
            r == (TextureBuilder { w: v, ..self }),
    {
        let mut b = self;
        b.w = v;
        b
    }

    /// Declared height of a raw pixel buffer.
    pub fn height(self, v: usize) -> (r: Self)
        ensures
            r == (TextureBuilder { h: v, ..self }),
    {
        let mut b = self;
        b.h = v;
        b
    }

    /// Number of sprite columns.
    pub fn sx(self, v: usize) -> (r: Self)
        ensures
            r == (TextureBuilder { sx: v, ..self }),
    {
        let mut b = self;
        b.sx = v;
        b
    }

    /// Number of sprite rows.
    pub fn sy(self, v: usize) -> (r: Self)
        ensures
            r == (TextureBuilder { sy: v, ..self }),
    {
        let mut b = self;
        b.sy = v;
        b
    }

    /// Bypasses the cache: the resource is neither looked up nor cached.
    pub fn skip_cache(self, v: bool) -> (r: Self)
        ensures
            r == (TextureBuilder { skip_cache: v, ..self }),
    {
        let mut b = self;
        b.skip_cache = v;
        b
    }

    /// Addressing along the horizontal axis.
    pub fn address_mode_u(self, v: AddressMode) -> (r: Self)
        ensures
            r == (TextureBuilder { address_u: v, ..self }),
    {
        let mut b = self;
        b.address_u = v;
        b
    }

    /// Addressing along the vertical axis.
    pub fn address_mode_v(self, v: AddressMode) -> (r: Self)
        ensures
            r == (TextureBuilder { address_v: v, ..self }),
    {
        let mut b = self;
        b.address_v = v;
        b
    }

    /// Minification filter.
    pub fn min_filter(self, v: FilterMode) -> (r: Self)
        ensures
            r == (TextureBuilder { min_filter: v, ..self }),
    {
        let mut b = self;
        b.min_filter = v;
        b
    }

    /// Magnification filter.
    pub fn mag_filter(self, v: FilterMode) -> (r: Self)
        ensures
            r == (TextureBuilder { mag_filter: v, ..self }),
    {
        let mut b = self;
        b.mag_filter = v;
        b
    }

    /// Requests mipmaps.
    pub fn mipmaps(self, v: bool) -> (r: Self)
        ensures
            r == (TextureBuilder { mipmaps: v, ..self }),
    {
        let mut b = self;
        b.mipmaps = v;
        b
    }

    /// Takes its pixels from a raw RGBA8 buffer of the declared size.
    pub fn from_data(self, data: Vec<u8>) -> (r: Self)
        ensures
            r == (TextureBuilder { source: TextureSource::Data(data), ..self }),
    {
        let mut b = self;
        b.source = TextureSource::Data(data);
        b
    }

    /// Takes its pixels from an image that is already decoded.
    pub fn from_image(self, img: DecodedImage) -> (r: Self)
        ensures
            r == (TextureBuilder { source: TextureSource::Image(img), ..self }),
    {
        let mut b = self;
        b.source = TextureSource::Image(img);
        b
    }

    /// The same addressing on both axes.
    pub fn address_mode(self, mode: AddressMode) -> (r: Self)
        ensures
            r == (TextureBuilder { address_u: mode, address_v: mode, ..self }),
    {
        self.address_mode_u(mode).address_mode_v(mode)
    }

    /// The same filter for minification and magnification.
    pub fn filter(self, mode: FilterMode) -> (r: Self)
        ensures
            r == (TextureBuilder { min_filter: mode, mag_filter: mode, ..self }),
    {
        self.min_filter(mode).mag_filter(mode)
    }

    /// Sets the border colour, and with it clamp-to-border addressing on
    /// both axes, whatever addressing was set before.
    pub fn border(self, border_value: Option<BorderColor>) -> (r: Self)
        ensures
            r == (TextureBuilder {
                border_value,
                address_u: AddressMode::ClampToBorder,
                address_v: AddressMode::ClampToBorder,
                ..self
            }),
    {
        let mut b = self;
        b.border_value = border_value;
        b.address_mode(AddressMode::ClampToBorder)
    }

    /// The cache key under which `build` looks up and registers the resource.
    pub fn cache_key(&self) -> (r: String)
        ensures
            r@ == self.key(),
    {
        if self.skip_cache {
            String::new()
        } else {
            self.name.clone()
        }
    }

    /// The parameters to give the new sampler object `id`.
    pub fn sampler_state(&self, id: u32) -> (r: SamplerState)
        ensures
            r == self.sampler_spec(id),
    {
        let clamp = self.border_value.is_some();
        SamplerState {
            id,
            wrap_s: if clamp { AddressMode::ClampToBorder } else { self.address_u },
            wrap_t: if clamp { AddressMode::ClampToBorder } else { self.address_v },
            min_filter: self.min_filter,
            mag_filter: self.mag_filter,
            border: self.border_value,
        }
    }

    /// Resolves the source into decoded pixels, taking it out of the builder.
    /// `bytes` is what was read from a path source (`None`: unreadable).
    pub fn load_image(&mut self, bytes: Option<Vec<u8>>) -> (r: Result<DecodedImage, TextureError>)
        ensures
            *final(self) == (TextureBuilder { source: TextureSource::Unset, ..*old(self) }),
            match r {
                Ok(img) => loaded(old(self).source, old(self).is_sdf, old(self).w, old(self).h, bytes)
                    == Ok::<(u32, u32, bool, Seq<u8>), TextureError>(img@),
                Err(e) => loaded(old(self).source, old(self).is_sdf, old(self).w, old(self).h, bytes)
                    == Err::<(u32, u32, bool, Seq<u8>), TextureError>(e),
            },
    {
        let mut source = TextureSource::Unset;
        std::mem::swap(&mut self.source, &mut source);
        match source {
            TextureSource::Path(_) => {
                if self.is_sdf {
                    return Err(TextureError::Unsupported);
                }
                match bytes {
                    None => Err(TextureError::Source),
                    Some(b) => match decode_bytes(b.as_slice()) {
                        Some(img) => Ok(img),
                        None => Err(TextureError::Decode),
                    },
                }
            },
            TextureSource::Data(data) => {
                if self.w > u32::MAX as usize || self.h > u32::MAX as usize {
                    return Err(TextureError::Decode);
                }
                let w = self.w as u128;
                let h = self.h as u128;
                assert(4 * w * h <= 4 * 0xffff_ffffu128 * 0xffff_ffffu128) by (nonlinear_arith)
                    requires
                        w <= 0xffff_ffffu128,
                        h <= 0xffff_ffffu128,
                ;
                if 4 * w * h != data.len() as u128 {
                    return Err(TextureError::Decode);
                }
                match rgba_from_raw(self.w as u32, self.h as u32, data) {
                    Some(img) => Ok(img),
                    None => Err(TextureError::Decode),
                }
            },
            TextureSource::Image(img) => Ok(img),
            TextureSource::Unset => Err(TextureError::Unsupported),
        }
    }

    /// Whether the source is one that can never be resolved: none at all,
    /// or a signed-distance field from a file.
    fn unusable_source(&self) -> (r: Option<TextureError>)
        ensures
            r == source_error(self.source, self.is_sdf),
    {
        match &self.source {
            TextureSource::Unset => Some(TextureError::Unsupported),
            TextureSource::Path(_) => if self.is_sdf {
                Some(TextureError::Unsupported)
            } else {
                None
            },
            _ => None,
        }
    }

    /// First step of a request: on a cache hit under the cache key nothing
    /// is decoded (`Ok(false)`, `bytes` unused) unless the source can never
    /// be resolved; on a miss the source is resolved, and where that works
    /// it is replaced by the decoded image, ready for upload (`Ok(true)`).
    /// `bytes` is what was read from a path source (`None`: unreadable).
    pub fn prepare(&mut self, textures: &TextureManager, bytes: Option<Vec<u8>>) -> (r: Result<
        bool,
        TextureError,
    >)
        requires
            textures.wf(),
        ensures
            match textures.cached(old(self).key()) {
                Some(_) => {
                    &&& *final(self) == *old(self)
                    &&& match source_error(old(self).source, old(self).is_sdf) {
                        Some(e) => r == Err::<bool, TextureError>(e),
                        None => r == Ok::<bool, TextureError>(false),
                    }
                },
                None => match loaded(old(self).source, old(self).is_sdf, old(self).w, old(self).h, bytes) {
                    Ok(v) => {
                        &&& r == Ok::<bool, TextureError>(true)
                        &&& final(self).source matches TextureSource::Image(img) && img@ == v
                        &&& *final(self) == (TextureBuilder { source: final(self).source, ..*old(self) })
                    },
                    Err(e) => {
                        &&& r == Err::<bool, TextureError>(e)
                        &&& *final(self) == (TextureBuilder { source: TextureSource::Unset, ..*old(self) })
                    },
                },
            },
    {
        let key = self.cache_key();
        if textures.find(&key).is_some() {
            return match self.unusable_source() {
                Some(e) => Err(e),
                None => Ok(false),
            };
        }
        match self.load_image(bytes) {
            Ok(img) => {
                self.source = TextureSource::Image(img);
                Ok(true)
            },
            Err(e) => Err(e),
        }
    }

    /// The upload that `build` registers for a new hardware texture: the
    /// texture id with the size of the image source.
    pub open spec fn fresh_upload(&self, texture: Option<u32>) -> Option<Upload> {
        match texture {
            Some(t) => Some(
                Upload {
                    texture: t,
                    width: self.source->Image_0.width,
                    height: self.source->Image_0.height,
                },
            ),
            None => None,
        }
    }

    /// Finishes the view: registers it in `textures` under the cache key,
    /// reusing the cached resource on a hit; on a miss the image source, as
    /// `prepare` leaves it, becomes a new resource uploaded to the hardware
    /// texture `texture`. The view owns the new sampler object `sampler`,
    /// configured as `sampler_state` says. A source that can never be
    /// resolved fails, changing nothing.
    pub fn build(self, textures: &mut TextureManager, texture: Option<u32>, sampler: u32) -> (r:
        Result<usize, TextureError>)
        requires
            old(textures).wf(),
            texture is None <==> old(textures).cached(self.key()) is Some,
            texture is Some ==> self.source is Image,
            !old(textures).sampler_used(sampler),
            texture matches Some(t) ==> !old(textures).texture_used(t),
        ensures
            final(textures).wf(),
            match source_error(self.source, self.is_sdf) {
                Some(e) => r == Err::<usize, TextureError>(e) && *final(textures) == *old(textures),
                None => final(textures).issued(
                    *old(textures),
                    r,
                    self.key(),
                    self.fresh_upload(texture),
                    self.is_srgb,
                    self.is_sdf,
                    Texture {
                        path: self.name,
                        name: self.name,
                        sx: self.sx,
                        sy: self.sy,
                        resource: 0,
                        sampler: self.sampler_spec(sampler),
                    },
                ),
            },
    {
        if let Some(e) = self.unusable_source() {
            return Err(e);
        }
        let fresh = match texture {
            Some(t) => match &self.source {
                TextureSource::Image(img) => Some(
                    Upload { texture: t, width: img.width, height: img.height },
                ),
                _ => None,
            },
            None => None,
        };
        let key = self.cache_key();
        let state = self.sampler_state(sampler);
        let view = Texture {
            path: self.name.clone(),
            name: self.name,
            sx: self.sx,
            sy: self.sy,
            resource: 0,
            sampler: state,
        };
        textures.issue(key, fresh, self.is_srgb, self.is_sdf, view)
    }
}

/// A border colour always yields clamp-to-border addressing on both axes of
/// the sampler, whatever addressing was configured before or after it.
pub proof fn lemma_border_clamps(b: TextureBuilder, id: u32)
    requires
        b.border_value is Some,
    ensures
        b.sampler_spec(id).wrap_s == AddressMode::ClampToBorder,
        b.sampler_spec(id).wrap_t == AddressMode::ClampToBorder,
        b.sampler_spec(id).border == b.border_value,
{
}

} // verus!
