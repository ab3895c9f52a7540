//! RGB colors and the contrast color used for overlay text.

use vstd::prelude::*;

verus! {

/// A color as three 8-bit channels.
#[derive(Clone, Copy, PartialEq, Eq, Structural, Debug)]
pub struct Rgb {
    pub r: u8,
    pub g: u8,
    pub b: u8,
}

/// The per-channel inverse of a color: each channel becomes 255 minus its
/// value. Overlay text drawn on a background of color `c` is given the
/// foreground `spec_contrast(c)`.
pub open spec fn spec_contrast(c: Rgb) -> Rgb {
    Rgb { r: (255 - c.r) as u8, g: (255 - c.g) as u8, b: (255 - c.b) as u8 }
}

/// Computes the contrast color of `c`: every channel inverted.
pub fn contrast_color(c: Rgb) -> (out: Rgb)
    ensures
        out == spec_contrast(c),
{
    Rgb { r: 255 - c.r, g: 255 - c.g, b: 255 - c.b }
}

/// Law: the contrast color function is an involution. Inverting a color's
/// inverse returns the original color, for every color.
pub proof fn lemma_contrast_involution(c: Rgb)
    ensures
        spec_contrast(spec_contrast(c)) == c,
{
}

} // verus!
