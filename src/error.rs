use vstd::prelude::*;

verus! {

/// Why a texture could not be produced.
#[derive(Clone, Copy, Debug, PartialEq, Eq, Structural)]
pub enum TextureError {
    /// The requested byte stream could not be read.
    Source,
    /// The bytes are not a supported image, or a raw buffer is smaller than
    /// its declared size.
    Decode,
    /// A hardware object could not be created, or a resource can take no
    /// further holder.
    GraphicsAllocation,
    /// The configuration is recognised but not implemented.
    Unsupported,
}

} // verus!
