//! The colour metrics a sort can go by, and the order each puts on pixels.

use std::cmp::Ordering;
use vstd::prelude::*;
use vstd::seq_lib::lemma_sorted_unique;
use crate::args::Method;
use crate::color::{absolute, hsla, hue, luminance, Color, SingleColor};
use crate::permutation::lemma_map_of_permutation;
use crate::pixel::Pixel;

verus! {

/// A metric that pixels can be ordered by.
#[derive(Clone, Copy, Debug, PartialEq, Eq, Structural)]
pub enum Metric {
    Luminance,
    Absolute,
    Hue,
}

/// The method chosen stands for no metric, so nothing can be sorted by it.
#[derive(Clone, Copy, Debug, PartialEq, Eq, Structural)]
pub struct UnmappedMethodError {
    pub method: Method,
}

impl Metric {
    /// The sort key of a colour under this metric.
    pub open spec fn key(self, c: Color) -> int {
        match self {
            Metric::Luminance => luminance(c),
            Metric::Absolute => absolute(c),
            Metric::Hue => hue(c),
        }
    }

    /// Computes the sort key of whatever carries a colour.
    pub fn measure<T: SingleColor>(self, item: &T) -> (k: u32)
        ensures
            k == self.key(item.rgba()),
    {
        match self {
            Metric::Luminance => item.get_luminance(),
            Metric::Absolute => item.get_absolute(),
            Metric::Hue => item.get_hue(),
        }
    }

    /// Orders two pixels by their keys; their positions play no part.
    pub fn compare(self, a: &Pixel, b: &Pixel) -> (o: Ordering)
        ensures
            o == Ordering::Less <==> self.key(a.color) < self.key(b.color),
            o == Ordering::Equal <==> self.key(a.color) == self.key(b.color),
            o == Ordering::Greater <==> self.key(a.color) > self.key(b.color),
    {
        let ka: u32 = self.measure(a);
        let kb: u32 = self.measure(b);
        if ka < kb {
            Ordering::Less
        } else if ka == kb {
            Ordering::Equal
        } else {
            Ordering::Greater
        }
    }
}

impl Method {
    /// The metric a method stands for, if it stands for one.
    pub open spec fn metric_of(self) -> Option<Metric> {
        match self {
            Method::Luminance => Some(Metric::Luminance),
            Method::Absolute => Some(Metric::Absolute),
            Method::Hue => Some(Metric::Hue),
            Method::Hsl => None,
        }
    }

    /// Maps the method to its metric. `Hsl` has none and is refused by name.
    pub fn metric(self) -> (r: Result<Metric, UnmappedMethodError>)
        ensures
            match self.metric_of() {
                Some(m) => r == Ok::<Metric, UnmappedMethodError>(m),
                None => r == Err::<Metric, UnmappedMethodError>(
                    UnmappedMethodError { method: self },
                ),
            },
    {
        match self {
            Method::Luminance => Ok(Metric::Luminance),
            Method::Absolute => Ok(Metric::Absolute),
            Method::Hue => Ok(Metric::Hue),
            Method::Hsl => Err(UnmappedMethodError { method: self }),
        }
    }
}

/// Keys do not decrease from the first pixel to the last.
pub open spec fn ascending(pixels: Seq<Pixel>, metric: Metric) -> bool {
    forall|i: int, j: int|
        0 <= i <= j < pixels.len() ==> metric.key(#[trigger] pixels[i].color) <= metric.key(
            #[trigger] pixels[j].color,
        )
}

/// Keys do not increase from the first colour to the last.
pub open spec fn descending(colors: Seq<Color>, metric: Metric) -> bool {
    forall|i: int, j: int|
        0 <= i <= j < colors.len() ==> metric.key(#[trigger] colors[i]) >= metric.key(
            #[trigger] colors[j],
        )
}

/// The keys of a sequence of colours, in the same order.
pub open spec fn keys_of(colors: Seq<Color>, metric: Metric) -> Seq<int> {
    colors.map_values(|c: Color| metric.key(c))
}

/// Two descending arrangements of the same colours show the same keys, place
/// by place. What they may differ in is only which of several colours of one
/// key stands where.
pub proof fn lemma_keys_are_determined(a: Seq<Color>, b: Seq<Color>, metric: Metric)
    requires
        a.to_multiset() == b.to_multiset(),
        descending(a, metric),
        descending(b, metric),
    ensures
        keys_of(a, metric) == keys_of(b, metric),
{
    lemma_map_of_permutation(a, b, |c: Color| metric.key(c));
    lemma_sorted_unique(keys_of(a, metric), keys_of(b, metric), |x: int, y: int| x >= y);
}

/// The key of a pixel is the key of its colour: where the pixel stands plays
/// no part, and the same colour always gets the same key.
pub proof fn lemma_key_ignores_position(metric: Metric, p: Pixel, q: Pixel)
    requires
        p.color == q.color,
    ensures
        metric.key(p.rgba()) == metric.key(q.rgba()),
        hsla(p.rgba()) == hsla(q.rgba()),
{
}

} // verus!
