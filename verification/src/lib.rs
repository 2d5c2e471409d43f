//! Pixel sorting: the pixels of an image are put in order of a colour metric
//! and laid back out over a raster of the same size.

pub mod args;
pub mod color;
pub mod metric;
pub mod permutation;
pub mod pixel;
pub mod raster;
pub mod sorter;
pub mod transform;
