//! Decoded images, as far as the transform reads and fills them.

use image::{DynamicImage, GenericImageView, RgbaImage};
use vstd::prelude::*;
use crate::color::Color;
use crate::pixel::Pixel;

verus! {

/// `image::DynamicImage`, a decoded image of any pixel layout. Nothing inside it
/// is visible here.
#[verifier::external_type_specification]
#[verifier::external_body]
pub struct ExDynamicImage(DynamicImage);

/// Width of an image in pixels.
pub uninterp spec fn image_width(img: DynamicImage) -> nat;

/// Height of an image in pixels.
pub uninterp spec fn image_height(img: DynamicImage) -> nat;

/// The colour an image shows at column `x` of row `y`, as 8-bit RGBA.
pub uninterp spec fn image_color(img: DynamicImage, x: int, y: int) -> Color;

/// `DynamicImage::width`: the name [`image_width`] stands for what it returns.
#[verifier::external_body]
pub(crate) fn width(img: &DynamicImage) -> (w: u32)
    ensures
        w == image_width(*img),
{
    img.width()
}

/// `DynamicImage::height`: the name [`image_height`] stands for what it returns.
#[verifier::external_body]
pub(crate) fn height(img: &DynamicImage) -> (h: u32)
    ensures
        h == image_height(*img),
{
    img.height()
}

/// `GenericImageView::get_pixel` on a `DynamicImage`, which converts the pixel
/// stored at `(x, y)` to 8-bit RGBA. It panics out of bounds, so the
/// coordinates must lie inside; the name [`image_color`] stands for what it
/// returns.
#[verifier::external_body]
pub(crate) fn color_at(img: &DynamicImage, x: u32, y: u32) -> (c: Color)
    requires
        x < image_width(*img),
        y < image_height(*img),
    ensures
        c == image_color(*img, x as int, y as int),
{
    let p = img.get_pixel(x, y);
    Color { r: p.0[0], g: p.0[1], b: p.0[2], a: p.0[3] }
}

/// `ImageBuffer::from_raw` for 8-bit RGBA, wrapped as `DynamicImage::ImageRgba8`.
///
/// By its source it accepts the buffer when four bytes for each of
/// `width * height` pixels fit in it, and the image then has those
/// dimensions and shows at `(x, y)` the four bytes that start at
/// `4 * (y * width + x)`, unconverted.
#[verifier::external_body]
pub(crate) fn rgba_image(width: u32, height: u32, bytes: Vec<u8>) -> (r: Option<DynamicImage>)
    ensures
        r is Some <==> 4 * width * height <= bytes.len(),
        r matches Some(img) ==> {
            &&& image_width(img) == width
            &&& image_height(img) == height
            &&& forall|x: int, y: int|
                0 <= x < width && 0 <= y < height ==> #[trigger] image_color(img, x, y)
                    == byte_color(bytes@, y * width + x)
        },
{
    RgbaImage::from_raw(width, height, bytes).map(DynamicImage::ImageRgba8)
}

/// The colour held by the four bytes of cell `i` of an RGBA byte buffer.
pub open spec fn byte_color(bytes: Seq<u8>, i: int) -> Color {
    Color { r: bytes[4 * i], g: bytes[4 * i + 1], b: bytes[4 * i + 2], a: bytes[4 * i + 3] }
}

/// Number of pixels of an image.
pub open spec fn image_len(img: DynamicImage) -> nat {
    image_width(img) * image_height(img)
}

/// The pixels of an image in row-major order: rows from the top, each from the
/// left.
pub open spec fn image_pixels(img: DynamicImage) -> Seq<Pixel> {
    Seq::new(
        image_len(img),
        |i: int|
            Pixel {
                x: (i % image_width(img) as int) as u32,
                y: (i / image_width(img) as int) as u32,
                color: image_color(img, i % image_width(img) as int, i / image_width(img) as int),
            },
    )
}

/// The colours of an image in row-major order.
pub open spec fn image_colors(img: DynamicImage) -> Seq<Color> {
    Seq::new(
        image_len(img),
        |i: int| image_color(img, i % image_width(img) as int, i / image_width(img) as int),
    )
}

} // verus!
