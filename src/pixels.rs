use vstd::prelude::*;

verus! {

/// A decoded image: its size and its pixels as 8-bit RGBA rows.
pub struct DecodedImage {
    pub width: u32,
    pub height: u32,
    pub has_alpha: bool,
    pub pixels: Vec<u8>,
}

impl DecodedImage {
    pub open spec fn view(&self) -> (u32, u32, bool, Seq<u8>) {
        (self.width, self.height, self.has_alpha, self.pixels@)
    }
}

/// What decoding a byte stream gives: width, height, whether the stored
/// colour type has alpha, and the RGBA8 pixels; `None` where the bytes are
/// not an image of a supported format.
pub uninterp spec fn decoded(bytes: Seq<u8>) -> Option<(u32, u32, bool, Seq<u8>)>;

/// Relies on `image::guess_format`, which matches the bytes against the
/// built-in signatures only, then `image::load_from_memory_with_format` with
/// that built-in format (no registered hook takes part), followed by
/// `DynamicImage::to_rgba8`: the outcome depends on the bytes alone.
#[verifier::external_body]
pub(crate) fn decode_bytes(bytes: &[u8]) -> (r: Option<DecodedImage>)
    ensures
        match r {
            Some(img) => decoded(bytes@) == Some(img@),
            None => decoded(bytes@) is None,
        },
{
    let format = image::guess_format(bytes).ok()?;
    match image::load_from_memory_with_format(bytes, format) {
        Ok(img) => Some(DecodedImage {
            width: img.width(),
            height: img.height(),
            has_alpha: img.color().has_alpha(),
            pixels: img.to_rgba8().into_raw(),
        }),
        Err(_) => None,
    }
}

/// Relies on `image::ImageBuffer::<Rgba<u8>, Vec<u8>>::from_raw`: it accepts
/// the buffer exactly when it holds at least `4 * width * height` bytes, and
/// then keeps it as it is.
#[verifier::external_body]
pub(crate) fn rgba_from_raw(width: u32, height: u32, data: Vec<u8>) -> (r: Option<DecodedImage>)
    ensures
        r is Some <==> 4 * width * height <= data@.len(),
        r matches Some(img) ==> img@ == (width, height, true, data@),
{
    image::ImageBuffer::<image::Rgba<u8>, Vec<u8>>::from_raw(width, height, data).map(
        |buf| DecodedImage { width: buf.width(), height: buf.height(), has_alpha: true, pixels: buf.into_raw() },
    )
}

} // verus!
