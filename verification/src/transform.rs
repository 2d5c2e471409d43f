//! The whole-image transform: collect the pixels, sort them, lay them back out.

use image::DynamicImage;
use vstd::prelude::*;
use vstd::arithmetic::div_mod::{lemma_fundamental_div_mod, lemma_fundamental_div_mod_converse};
use crate::args::{Args, Method};
use crate::metric::{
    ascending, descending, keys_of, lemma_keys_are_determined, Metric, UnmappedMethodError,
};
use crate::pixel::{colors_of, lemma_colors_of_permutation, Pixel};
use crate::raster::{
    byte_color, color_at, height, image_colors, image_height, image_len, image_pixels,
    image_width, rgba_image, width,
};
use crate::sorter::par_sort_by_metric;

verus! {

/// Cell `(x, y)` of a raster `w` wide and `h` high is cell `y * w + x` in
/// row-major order, and that index gives the coordinates back.
proof fn lemma_cell_index(x: int, y: int, w: int, h: int)
    requires
        0 <= x < w,
        0 <= y < h,
    ensures
        0 <= y * w + x < w * h,
        (y * w + x) % w == x,
        (y * w + x) / w == y,
{
    assert(0 <= y * w && y * w + w <= w * h) by (nonlinear_arith)
        requires
            0 <= y < h,
            0 < w,
    ;
    lemma_fundamental_div_mod_converse(y * w + x, w, y, x);
}

/// Index `i` of a raster `w` wide and `h` high lies in column `i % w` of row
/// `i / w`, both inside the raster.
proof fn lemma_cell_coordinates(i: int, w: int, h: int)
    requires
        0 <= i < w * h,
        0 <= w,
        0 <= h,
    ensures
        0 <= i % w < w,
        0 <= i / w < h,
        (i / w) * w + i % w == i,
{
    assert(w > 0) by (nonlinear_arith)
        requires
            0 <= i < w * h,
            0 <= w,
    ;
    lemma_fundamental_div_mod(i, w);
    assert(0 <= i / w < h) by (nonlinear_arith)
        requires
            0 <= i < w * h,
            0 < w,
            i == w * (i / w) + i % w,
            0 <= i % w < w,
    ;
    assert((i / w) * w == w * (i / w)) by (nonlinear_arith);
}

/// Reads the pixels of an image in row-major order: rows from the top, each
/// from the left.
pub fn collect_pixels(img: &DynamicImage) -> (pixels: Vec<Pixel>)
    ensures
        pixels@ == image_pixels(*img),
        pixels@.len() == image_width(*img) * image_height(*img),
{
    let w = width(img);
    let h = height(img);
    let mut pixels: Vec<Pixel> = Vec::new();
    let mut y: u32 = 0;
    while y < h
        invariant
            w == image_width(*img),
            h == image_height(*img),
            y <= h,
            0 <= y * w <= image_len(*img),
            pixels@ == image_pixels(*img).take(y * w),
        decreases h - y,
    {
        let mut x: u32 = 0;
        while x < w
            invariant
                w == image_width(*img),
                h == image_height(*img),
                y < h,
                x <= w,
                0 <= y * w + x <= image_len(*img),
                pixels@ == image_pixels(*img).take(y * w + x),
            decreases w - x,
        {
            proof {
                lemma_cell_index(x as int, y as int, w as int, h as int);
            }
            let color = color_at(img, x, y);
            pixels.push(Pixel { x, y, color });
            x += 1;
        }
        assert(y * w + w == (y + 1) * w) by (nonlinear_arith);
        y += 1;
    }
    assert(h * w == w * h) by (nonlinear_arith);
    pixels
}

/// Lays sorted pixels out over a fresh raster of the given size.
///
/// The cells are filled in row-major order, each with the colour of the last
/// pixel that is left, so the raster shows the colours from the last pixel to
/// the first. Where the pixels came from is not looked at. There must be as
/// many pixels as cells.
pub fn reconstruct(sorted: Vec<Pixel>, width: u32, height: u32) -> (out: DynamicImage)
    requires
        sorted.len() == width * height,
    ensures
        image_width(out) == width,
        image_height(out) == height,
        image_colors(out) == colors_of(sorted@).reverse(),
{
    let ghost all = sorted@;
    let mut rest = sorted;
    let mut bytes: Vec<u8> = Vec::new();
    while rest.len() > 0
        invariant
            rest@.len() <= all.len(),
            rest@ == all.take(rest@.len() as int),
            bytes@.len() == 4 * (all.len() - rest@.len()),
            forall|k: int|
                0 <= k < all.len() - rest@.len() ==> #[trigger] byte_color(bytes@, k) == all[all.len()
                    - 1 - k].color,
        decreases rest@.len(),
    {
        let ghost filled = bytes@;
        let pixel = rest.pop().unwrap();
        let color = pixel.color;
        bytes.push(color.r);
        bytes.push(color.g);
        bytes.push(color.b);
        bytes.push(color.a);
        assert forall|k: int| 0 <= k < all.len() - rest@.len() implies #[trigger] byte_color(
            bytes@,
            k,
        ) == all[all.len() - 1 - k].color by {
            if k < all.len() - rest@.len() - 1 {
                assert(byte_color(bytes@, k) == byte_color(filled, k));
            }
        }
    }
    assert(4 * width * height == 4 * (width * height)) by (nonlinear_arith);
    let out = rgba_image(width, height, bytes).unwrap();
    proof {
        let shown = image_colors(out);
        let wanted = colors_of(all).reverse();
        assert forall|i: int| 0 <= i < shown.len() implies shown[i] == wanted[i] by {
            lemma_cell_coordinates(i, width as int, height as int);
        }
    }
    out
}

/// Ascending pixels, read from the last to the first, give descending colours.
pub proof fn lemma_reverse_descends(pixels: Seq<Pixel>, metric: Metric)
    requires
        ascending(pixels, metric),
    ensures
        descending(colors_of(pixels).reverse(), metric),
{
}

/// `out` is `img` with its pixels sorted by `metric`: as wide and as high, with
/// the same colours, each as often as in `img`, and with keys that never
/// increase along the row-major order.
pub open spec fn is_sorted_image(out: DynamicImage, img: DynamicImage, metric: Metric) -> bool {
    &&& image_width(out) == image_width(img)
    &&& image_height(out) == image_height(img)
    &&& image_colors(out).to_multiset() == image_colors(img).to_multiset()
    &&& descending(image_colors(out), metric)
}

/// Sorts the pixels of an image by a colour metric.
///
/// The pixels are collected in row-major order, sorted ascending by the metric
/// of `method`, and laid out again from the last to the first. The result has
/// the size of the input and the same colours, each as often as before, and
/// read in row-major order its keys never increase. Colours of equal key may
/// stand in any order, and two runs on one image need not agree on it.
///
/// A method without a metric is refused before a pixel is read.
pub fn pixel_sort(img: &DynamicImage, method: Method) -> (r: Result<
    DynamicImage,
    UnmappedMethodError,
>)
    ensures
        match method.metric_of() {
            Some(metric) => r matches Ok(out) && is_sorted_image(out, *img, metric),
            None => r == Err::<DynamicImage, UnmappedMethodError>(UnmappedMethodError { method }),
        },
{
    let metric = match method.metric() {
        Ok(metric) => metric,
        Err(e) => {
            return Err(e);
        },
    };
    let mut pixels = collect_pixels(img);
    par_sort_by_metric(&mut pixels, metric);
    proof {
        lemma_colors_of_permutation(pixels@, image_pixels(*img));
        assert(colors_of(image_pixels(*img)) =~= image_colors(*img));
        colors_of(pixels@).lemma_reverse_to_multiset();
        pixels@.to_multiset_ensures();
        image_pixels(*img).to_multiset_ensures();
        lemma_reverse_descends(pixels@, metric);
    }
    Ok(reconstruct(pixels, width(img), height(img)))
}

/// Two sorts of one image by one metric agree on the key of every cell, and
/// on nothing more: where keys tie, the colours of the tie may be laid out
/// differently from run to run.
pub proof fn lemma_sorts_agree_on_keys(
    img: DynamicImage,
    first: DynamicImage,
    second: DynamicImage,
    metric: Metric,
)
    requires
        is_sorted_image(first, img, metric),
        is_sorted_image(second, img, metric),
    ensures
        image_width(first) == image_width(second),
        image_height(first) == image_height(second),
        keys_of(image_colors(first), metric) == keys_of(image_colors(second), metric),
{
    lemma_keys_are_determined(image_colors(first), image_colors(second), metric);
}

impl Args {
    /// Carries out what the options ask for on a decoded image.
    ///
    /// With `pure` set the image is sorted by `method` and handed back. Without
    /// it nothing is transformed, nor is the method looked at, and there is no
    /// image to write.
    pub fn apply(&self, img: &DynamicImage) -> (r: Result<
        Option<DynamicImage>,
        UnmappedMethodError,
    >)
        ensures
            !self.pure ==> r == Ok::<Option<DynamicImage>, UnmappedMethodError>(None),
            self.pure ==> match self.method.metric_of() {
                Some(metric) => r matches Ok(Some(out)) && is_sorted_image(out, *img, metric),
                None => r == Err::<Option<DynamicImage>, UnmappedMethodError>(
                    UnmappedMethodError { method: self.method },
                ),
            },
    {
        if !self.pure {
            return Ok(None);
        }
        match pixel_sort(img, self.method) {
            Ok(out) => Ok(Some(out)),
            Err(e) => Err(e),
        }
    }
}

} // verus!
