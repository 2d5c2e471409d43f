//! What a run is asked to do.

use std::path::PathBuf;
use vstd::prelude::*;

verus! {

/// Which pixels a filtered sort would pick. No transform reads it: a pure sort
/// takes every pixel.
#[derive(Clone, Copy, Debug, PartialEq, Eq, Structural)]
pub enum Mode {
    White,
    Black,
    Bright,
    Dark,
}

/// How pixels are to be ordered.
#[derive(Clone, Copy, Debug, PartialEq, Eq, Structural)]
pub enum Method {
    Luminance,
    Absolute,
    Hue,
    Hsl,
}

/// Cut-off for [`Mode::White`], on the scale of the negated channel product,
/// where 0 is white and -16581375 black. No transform reads these four.
pub const WHITE_VALUE: i32 = -12345678;

/// Cut-off for [`Mode::Black`], on the same scale.
pub const BLACK_VALUE: i32 = -3456789;

/// Cut-off for [`Mode::Bright`], on the scale of brightness.
pub const BRIGHT_VALUE: i32 = 127;

/// Cut-off for [`Mode::Dark`], on the scale of brightness.
pub const DARK_VALUE: i32 = 223;

/// `std::path::PathBuf`, carried through unread.
#[verifier::external_type_specification]
#[verifier::external_body]
pub struct ExPathBuf(PathBuf);

/// The options of one run.
#[derive(Debug)]
pub struct Args {
    /// Which pixels a filtered sort would pick; without effect on a pure sort.
    pub filtering: Mode,
    /// The metric to sort by.
    pub method: Method,
    /// Sort every pixel of the image. Unset, nothing is transformed.
    pub pure: bool,
    /// Where the image is read from.
    pub input: PathBuf,
    /// Where the result is written, if the caller chose a place.
    pub out: Option<PathBuf>,
}

impl Default for Mode {
    fn default() -> (m: Mode)
        ensures
            m == Mode::White,
    {
        Mode::White
    }
}

impl Default for Method {
    fn default() -> (m: Method)
        ensures
            m == Method::Hue,
    {
        Method::Hue
    }
}

} // verus!
