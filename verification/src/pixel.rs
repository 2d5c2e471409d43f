//! A pixel: a colour with the place it was read from.

use vstd::prelude::*;
use crate::color::{Color, SingleColor};
use crate::permutation::lemma_map_of_permutation;

verus! {

/// One cell of a raster: column `x`, row `y`, and the colour found there.
#[derive(Clone, Copy, Debug, PartialEq, Eq, Structural)]
pub struct Pixel {
    pub x: u32,
    pub y: u32,
    pub color: Color,
}

impl SingleColor for Pixel {
    open spec fn rgba(&self) -> Color {
        self.color
    }

    fn get_rgba(&self) -> (c: Color) {
        self.color
    }
}

/// The colours of a sequence of pixels, in the same order.
pub open spec fn colors_of(pixels: Seq<Pixel>) -> Seq<Color> {
    pixels.map_values(|p: Pixel| p.color)
}

/// Reordering pixels does not change which colours there are, nor how often
/// each occurs.
pub proof fn lemma_colors_of_permutation(a: Seq<Pixel>, b: Seq<Pixel>)
    requires
        a.to_multiset() == b.to_multiset(),
    ensures
        colors_of(a).to_multiset() == colors_of(b).to_multiset(),
{
    lemma_map_of_permutation(a, b, |p: Pixel| p.color);
}

} // verus!
