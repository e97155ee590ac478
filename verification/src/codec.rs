//! Decoding: from the bytes of an encoded image to a picture.

use crate::picture::{Picture, PixelLayout};
use vstd::prelude::*;

verus! {

/// A decoded image as the decoder hands it over, `image::DynamicImage`.
#[verifier::external_type_specification]
#[verifier::external_body]
pub struct ExDynamicImage(::image::DynamicImage);

/// Calls `image::load_from_memory`, which guesses the format of `bytes` and
/// decodes them. An error comes back as nothing. Nothing is claimed of the
/// outcome: the decoder of one format rounds as the machine it runs on
/// does, so the same bytes need not give the same samples everywhere.
#[verifier::external_body]
fn load_from_memory(bytes: &[u8]) -> (out: Option<::image::DynamicImage>) {
    ::image::load_from_memory(bytes).ok()
}

/// Takes a decoded image apart. An image of one 8-bit brightness per pixel
/// gives up its buffer by `ImageBuffer::into_raw`; any other is first
/// brought to 8-bit red, green, blue and alpha by
/// `DynamicImage::into_rgba8`. Nothing is claimed of the parts.
#[verifier::external_body]
fn into_parts(image: ::image::DynamicImage) -> (parts: (u32, u32, PixelLayout, Vec<u8>)) {
    match image {
        ::image::DynamicImage::ImageLuma8(grey) => {
            (grey.width(), grey.height(), PixelLayout::Luma, grey.into_raw())
        },
        other => {
            let colour = other.into_rgba8();
            (colour.width(), colour.height(), PixelLayout::Rgba, colour.into_raw())
        },
    }
}

/// Decodes an image. Bytes that the decoder turns down give nothing, and
/// so does an image whose parts do not hold one group of samples for each
/// pixel. What comes of given bytes is the decoder's to say.
pub fn decode(bytes: &[u8]) -> (out: Option<Picture>) {
    match load_from_memory(bytes) {
        Some(image) => {
            let (width, height, layout, samples) = into_parts(image);
            Picture::from_raw(width, height, layout, samples)
        },
        None => None,
    }
}

} // verus!
