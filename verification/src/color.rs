//! Tag display colors: an RGB triple, automatic color assignment from a
//! fixed palette, and the mixing rule used when ranges overlap.

use vstd::prelude::*;

verus! {

/// An RGB color triple.
#[derive(Clone, Copy, PartialEq, Eq, Structural, Debug)]
pub struct Color {
    pub r: u8,
    pub g: u8,
    pub b: u8,
}

impl Color {
    pub fn new(r: u8, g: u8, b: u8) -> (c: Color)
        ensures
            c == (Color { r, g, b }),
    {
        Color { r, g, b }
    }
}

/// The color that colorous's "Warm" gradient yields when sampled at the
/// rational position `i / n` (with `i` already clamped below `n`).
pub uninterp spec fn warm_palette(i: int, n: int) -> (u8, u8, u8);

/// Automatic tag color: sample a perceptually-spread palette at a position
/// given by the number of tags that already exist, over a fixed number of
/// palette stops. Deterministic, so tag colors are reproducible.
///
/// Relies on colorous::Gradient::eval_rational on colorous::WARM: for
/// `n > 0` it clamps `i` to `n - 1` and samples the gradient at `i / (n-1)`,
/// a pure function of the two arguments; it panics only when `n == 0`.
#[verifier::external_body]
pub fn random_color(num_existing: usize) -> (c: Color)
    ensures
        (c.r, c.g, c.b) == warm_palette(
            if num_existing < PALETTE_STOPS { num_existing as int } else { PALETTE_STOPS - 1 },
            PALETTE_STOPS as int,
        ),
{
    let sample = colorous::WARM.eval_rational(num_existing, PALETTE_STOPS);
    Color { r: sample.r, g: sample.g, b: sample.b }
}

/// How many stops the automatic palette is divided into.
pub const PALETTE_STOPS: usize = 40;

/// The color assigned automatically to a new tag when `count` tags already
/// exist: the palette sampled at stop `count` (its last stop once the
/// palette is exhausted).
pub open spec fn spec_auto_color(count: int) -> (u8, u8, u8) {
    warm_palette(
        if count < PALETTE_STOPS { count } else { PALETTE_STOPS - 1 },
        PALETTE_STOPS as int,
    )
}

/// The even blend of two colors, channel by channel (rounding down).
pub fn mix_colors(c1: Color, c2: Color) -> (m: Color)
    ensures
        m.r == (c1.r + c2.r) / 2,
        m.g == (c1.g + c2.g) / 2,
        m.b == (c1.b + c2.b) / 2,
{
    Color {
        r: ((c1.r as u16 + c2.r as u16) / 2) as u8,
        g: ((c1.g as u16 + c2.g as u16) / 2) as u8,
        b: ((c1.b as u16 + c2.b as u16) / 2) as u8,
    }
}

} // verus!
