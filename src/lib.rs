//! Texture resource management: a weakly interning cache of shared GPU
//! resources, lightweight views with samplers of their own, and the handle
//! table through which unmanaged callers create, duplicate and free views.
//!
//! Hardware work (creating, uploading and deleting texture and sampler
//! objects) is done by the caller; the library decides what is created,
//! reused and released, and keeps the counts.

mod builder;
mod error;
mod flags;
mod geometry;
mod manager;
mod pixels;
mod sampler;

pub use builder::{TextureBuilder, TextureSource, lemma_border_clamps, loaded, source_error};
pub use error::TextureError;
pub use flags::{
    Flags, OPENGL_TEX_CLAMP_ALPHA, OPENGL_TEX_MAPTRANS, OPENGL_TEX_MIPMAPS, OPENGL_TEX_NOTSRGB,
    OPENGL_TEX_SDF, OPENGL_TEX_SKIPCACHE, OPENGL_TEX_VFLIP, sprite_request,
};
pub use geometry::{Ratio, frame_fraction, frame_size, sprite_fraction, sprite_frame};
pub use manager::{
    Released, SharedResource, Texture, TextureData, TextureManager, Upload, copied_sampler,
    refers_to, refs, sampler_taken, samplers_distinct, texture_taken, textures_distinct,
};
pub use pixels::{DecodedImage, decoded};
pub use sampler::{
    AddressMode, BorderColor, FilterMode, GL_CLAMP_TO_BORDER, GL_CLAMP_TO_EDGE, GL_LINEAR,
    GL_MIRRORED_REPEAT, GL_NEAREST, GL_REPEAT, GL_RGB, GL_RGBA, GL_SRGB, GL_SRGB_ALPHA,
    SamplerState, address_gl, filter_gl, storage_format, storage_format_spec,
};
