//! From the bytes of a PNG file to the frame of the display.
//!
//! Decoding and scaling are the work of the `image` crate. The library
//! states of them only that they are functions of what they are given, and
//! checks itself that what comes out has the size of the display before it
//! reads the pixels.

use crate::frame::{rgb_of, DecodedFrame, FRAME_HEIGHT, FRAME_PIXELS, FRAME_WIDTH};
use vstd::prelude::*;

verus! {

/// A decoded image of the `image` crate, opaque to the verifier.
#[verifier::external_type_specification]
#[verifier::external_body]
pub struct ExDynamicImage(image::DynamicImage);

/// The error of the `image` crate, opaque to the verifier.
#[verifier::external_type_specification]
#[verifier::external_body]
pub struct ExImageError(image::ImageError);

/// Why a bitmap gave no frame.
#[derive(Clone, Copy, Debug, PartialEq, Eq, Structural)]
pub enum RenderError {
    /// The bytes are not a PNG image that the decoder accepts.
    Undecodable,
    /// The image, scaled, does not fill the display: it is not square, or
    /// its pixels are not as many as the display has.
    WrongShape,
}

/// The image that `image::load_from_memory_with_format` decodes from
/// `bytes` as PNG, or `None` where it refuses them.
pub uninterp spec fn png_image(bytes: Seq<u8>) -> Option<image::DynamicImage>;

/// The image that `DynamicImage::resize` makes of `img` for the bounds
/// `width` and `height`, with the nearest-neighbour filter.
pub uninterp spec fn fitted(img: image::DynamicImage, width: u32, height: u32) -> image::DynamicImage;

/// The width and the height that `GenericImageView::dimensions` gives of
/// `img`.
pub uninterp spec fn image_size(img: image::DynamicImage) -> (u32, u32);

/// The pixels that `GenericImageView::pixels` walks over in `img`, each as
/// red, green, blue and alpha.
pub uninterp spec fn image_pixels(img: image::DynamicImage) -> Seq<[u8; 4]>;

/// Calls `image::load_from_memory_with_format` with the PNG format. The
/// contract claims only that the outcome is a function of the bytes, and
/// names it.
#[verifier::external_body]
fn decode_png(bytes: &[u8]) -> (r: Result<image::DynamicImage, image::ImageError>)
    ensures
        match r {
            Ok(img) => png_image(bytes@) == Some(img),
            Err(_) => png_image(bytes@) is None,
        },
{
    image::load_from_memory_with_format(bytes, image::ImageFormat::Png)
}

/// Calls `DynamicImage::resize` with the nearest-neighbour filter, which
/// scales the image to the largest size of its own proportions within the
/// bounds. The contract claims only that the result is a function of the
/// image and the bounds, and names it.
#[verifier::external_body]
fn resize_nearest(img: &image::DynamicImage, width: u32, height: u32) -> (r: image::DynamicImage)
    ensures
        r == fitted(*img, width, height),
{
    img.resize(width, height, image::imageops::FilterType::Nearest)
}

/// Calls `GenericImageView::dimensions`, which reads the width and the
/// height off the image. The contract names the pair.
#[verifier::external_body]
fn dimensions_of(img: &image::DynamicImage) -> (size: (u32, u32))
    ensures
        size == image_size(*img),
{
    image::GenericImageView::dimensions(img)
}

/// Calls `GenericImageView::pixels`, which walks over the image row by row,
/// and keeps the four channels of each pixel. On an image without width the
/// walk leaves the image and panics, so an image must have both a width and
/// a height to be handed in. The contract names the sequence, and claims of
/// it that it holds one pixel for each place of the image.
#[verifier::external_body]
fn pixels_of(img: &image::DynamicImage) -> (pixels: Vec<[u8; 4]>)
    requires
        image_size(*img).0 >= 1,
        image_size(*img).1 >= 1,
    ensures
        pixels@ == image_pixels(*img),
        pixels@.len() == image_size(*img).0 * image_size(*img).1,
{
    image::GenericImageView::pixels(img).map(|(_, _, pixel)| pixel.0).collect()
}

/// The frame that a sequence of pixels makes: their colours, if they are as
/// many as the display has pixels.
pub open spec fn frame_of(pixels: Seq<[u8; 4]>) -> Result<Seq<u8>, RenderError> {
    if pixels.len() == FRAME_PIXELS {
        Ok(rgb_of(pixels))
    } else {
        Err(RenderError::WrongShape)
    }
}

/// The frame of a PNG file: decoded and scaled to fit the display, the
/// colours of its pixels where the scaled image is as wide and as high as
/// the display.
pub open spec fn rendering(png: Seq<u8>) -> Result<Seq<u8>, RenderError> {
    match png_image(png) {
        None => Err(RenderError::Undecodable),
        Some(img) => {
            let scaled = fitted(img, FRAME_WIDTH, FRAME_HEIGHT);
            if image_size(scaled) == (FRAME_WIDTH, FRAME_HEIGHT) {
                Ok(rgb_of(image_pixels(scaled)))
            } else {
                Err(RenderError::WrongShape)
            }
        },
    }
}

/// The bytes of a rendered frame, or the error.
pub open spec fn rendered(r: Result<DecodedFrame, RenderError>) -> Result<Seq<u8>, RenderError> {
    match r {
        Ok(frame) => Ok(frame@),
        Err(e) => Err(e),
    }
}

/// Makes the frame of the display out of the pixels of a scaled image.
///
/// Fails with `WrongShape` exactly where the pixels are not as many as the
/// display has.
pub fn frame_from_pixels(pixels: &[[u8; 4]]) -> (r: Result<DecodedFrame, RenderError>)
    ensures
        rendered(r) == frame_of(pixels@),
        r matches Ok(frame) ==> frame.wf() && frame.pixel_count() == FRAME_PIXELS,
{
    match DecodedFrame::from_rgba(FRAME_PIXELS, pixels) {
        Some(frame) => Ok(frame),
        None => Err(RenderError::WrongShape),
    }
}

/// Turns the bytes of a PNG file into the frame of the display: decodes
/// them, scales the image to fit the display with the nearest-neighbour
/// filter, and drops the alpha of each pixel.
///
/// Fails with `Undecodable` where the decoder refuses the bytes, and with
/// `WrongShape` where the scaled image is not as wide and as high as the
/// display. Every other image gives a frame.
pub fn load_image(png: &[u8]) -> (r: Result<DecodedFrame, RenderError>)
    ensures
        rendered(r) == rendering(png@),
        r matches Ok(frame) ==> frame.wf() && frame.pixel_count() == FRAME_PIXELS,
{
    let img = match decode_png(png) {
        Ok(img) => img,
        Err(_) => { return Err(RenderError::Undecodable); },
    };
    let scaled = resize_nearest(&img, FRAME_WIDTH, FRAME_HEIGHT);
    let size = dimensions_of(&scaled);
    if size.0 != FRAME_WIDTH || size.1 != FRAME_HEIGHT {
        return Err(RenderError::WrongShape);
    }
    let pixels = pixels_of(&scaled);
    frame_from_pixels(pixels.as_slice())
}

} // verus!
