//! The pixel buffer of the `image` crate, as far as the font decoder needs it.
//!
//! Nothing in this file is proved. The buffer is opaque to the verifier; the
//! two spec functions name what it holds, and each function states of one
//! method of `image::ImageBuffer` what that method's source shows.

use vstd::prelude::*;

verus! {

/// An `image::GrayAlphaImage`: eight bits of luma and eight of alpha per pixel.
#[verifier::external_body]
pub struct LumaAlphaBuffer {
    inner: image::GrayAlphaImage,
}

/// The samples of a buffer in storage order: row by row from the top, pixel by
/// pixel from the left, luma before alpha.
pub uninterp spec fn buffer_samples(buffer: LumaAlphaBuffer) -> Seq<u8>;

/// The width and the height of a buffer, in pixels.
pub uninterp spec fn buffer_dimensions(buffer: LumaAlphaBuffer) -> (u32, u32);

/// `image::ImageBuffer::from_raw`: the buffer is made exactly when twice the
/// width fits a `usize` and the samples suffice for two per pixel; it then keeps
/// the dimensions and the samples as given.
#[verifier::external_body]
pub(crate) fn buffer_from_raw(width: u32, height: u32, samples: Vec<u8>) -> (made: Option<
    LumaAlphaBuffer,
>)
    ensures
        made is Some <==> (2 * width <= usize::MAX && 2 * width * height <= samples@.len()),
        made is Some ==> buffer_dimensions(made->0) == (width, height),
        made is Some ==> buffer_samples(made->0) == samples@,
{
    match image::GrayAlphaImage::from_raw(width, height, samples) {
        Some(inner) => Some(LumaAlphaBuffer { inner }),
        None => None,
    }
}

/// `image::ImageBuffer::dimensions`: the width and the height.
#[verifier::external_body]
pub(crate) fn buffer_size(buffer: &LumaAlphaBuffer) -> (size: (u32, u32))
    ensures
        size == buffer_dimensions(*buffer),
{
    buffer.inner.dimensions()
}

/// `image::ImageBuffer::as_raw`: the samples as they are stored.
#[verifier::external_body]
pub(crate) fn buffer_as_raw(buffer: &LumaAlphaBuffer) -> (samples: &Vec<u8>)
    ensures
        samples@ == buffer_samples(*buffer),
{
    buffer.inner.as_raw()
}

/// `image::ImageBuffer::into_raw`: the samples, moved out of the buffer.
#[verifier::external_body]
pub(crate) fn buffer_into_raw(buffer: LumaAlphaBuffer) -> (samples: Vec<u8>)
    ensures
        samples@ == buffer_samples(buffer),
{
    buffer.inner.into_raw()
}

} // verus!
