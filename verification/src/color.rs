//! The canonical color model and its numeric conversions.

use vstd::prelude::*;

verus! {

/// A color as three independent 8-bit channel intensities.
///
/// This is an immutable value type: it is copied, never shared, between the
/// ingress paths. There is no invariant beyond the range of each channel,
/// which the `u8` type already enforces.
#[derive(Clone, Copy, PartialEq, Eq, Structural, Debug)]
pub struct Color {
    pub red: u8,
    pub green: u8,
    pub blue: u8,
}

impl Color {
    /// Builds a color from three channel bytes.
    pub fn new(red: u8, green: u8, blue: u8) -> (c: Color)
        ensures
            c == (Color { red, green, blue }),
    {
        Color { red, green, blue }
    }

    /// Builds a color from three signed integers.
    ///
    /// Each value is reduced to its low eight bits, so an out-of-range input
    /// wraps rather than clamps or fails; callers that do not want wrapping
    /// must validate beforehand. Construction is total by design.
    pub fn from_integers(red: i32, green: i32, blue: i32) -> (c: Color)
        ensures
            c.red == red as u8,
            c.green == green as u8,
            c.blue == blue as u8,
    {
        Color {
            red: #[verifier::truncate] (red as u8),
            green: #[verifier::truncate] (green as u8),
            blue: #[verifier::truncate] (blue as u8),
        }
    }

    /// Decomposes a packed 32-bit RGBA value into its channel bytes: red is
    /// the most significant byte, then green, then blue; the trailing alpha
    /// byte is discarded.
    pub fn from_packed_color(packed: u32) -> (c: Color)
        ensures
            c.red == (packed >> 24) as u8,
            c.green == (packed >> 16) as u8,
            c.blue == (packed >> 8) as u8,
    {
        Color {
            red: #[verifier::truncate] ((packed >> 24) as u8),
            green: #[verifier::truncate] ((packed >> 16) as u8),
            blue: #[verifier::truncate] ((packed >> 8) as u8),
        }
    }
}

} // verus!
