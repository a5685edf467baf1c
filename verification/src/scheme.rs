//! The classifier: from a colour sample to a colour scheme.

use vstd::prelude::*;

verus! {

/// One reading of a colour, channel by channel.
#[derive(Clone, Copy, Debug, PartialEq, Eq, Structural)]
pub struct ColorSample {
    pub r: u8,
    pub g: u8,
    pub b: u8,
}

/// The scheme that a background colour stands for.
#[derive(Clone, Copy, Debug, PartialEq, Eq, Structural)]
pub enum ColorScheme {
    Dark,
    Light,
}

/// The weight below which a sample counts as dark: three quarters of the
/// largest weight, 32 * 255.
pub const DARK_LIMIT: u16 = 6144;

/// The weighted sum of the channels: green counts 16, red 11, blue 5.
pub open spec fn luminance(sample: ColorSample) -> int {
    16 * (sample.g as int) + 11 * (sample.r as int) + 5 * (sample.b as int)
}

/// The scheme of a sample: dark strictly below the limit, light from the limit on.
pub open spec fn scheme_of(sample: ColorSample) -> ColorScheme {
    if luminance(sample) < 6144 {
        ColorScheme::Dark
    } else {
        ColorScheme::Light
    }
}

impl ColorSample {
    /// The sample with the given channels.
    pub fn new(r: u8, g: u8, b: u8) -> (sample: ColorSample)
        ensures
            sample == (ColorSample { r, g, b }),
    {
        ColorSample { r, g, b }
    }
}

/// Classifies a sample. Every sample has exactly one scheme.
pub fn classify(sample: ColorSample) -> (scheme: ColorScheme)
    ensures
        scheme == scheme_of(sample),
{
    let green: u16 = sample.g as u16;
    let red: u16 = sample.r as u16;
    let blue: u16 = sample.b as u16;
    let weight: u16 = 16 * green + 11 * red + 5 * blue;
    if weight < DARK_LIMIT {
        ColorScheme::Dark
    } else {
        ColorScheme::Light
    }
}

impl From<ColorSample> for ColorScheme {
    fn from(sample: ColorSample) -> (scheme: ColorScheme) {
        classify(sample)
    }
}

impl vstd::std_specs::convert::FromSpecImpl<ColorSample> for ColorScheme {
    open spec fn obeys_from_spec() -> bool {
        true
    }

    open spec fn from_spec(sample: ColorSample) -> ColorScheme {
        scheme_of(sample)
    }
}

/// A sample is dark exactly when its weight is below the limit, and light
/// exactly when its weight has reached it; the weight never exceeds 32 * 255.
pub proof fn scheme_threshold(sample: ColorSample)
    ensures
        0 <= luminance(sample) <= 8160,
        scheme_of(sample) == ColorScheme::Dark <==> luminance(sample) < 6144,
        scheme_of(sample) == ColorScheme::Light <==> luminance(sample) >= 6144,
{
}

/// A sample that is at least as bright in every channel as a light one is light.
pub proof fn scheme_monotone(dim: ColorSample, bright: ColorSample)
    requires
        dim.r <= bright.r,
        dim.g <= bright.g,
        dim.b <= bright.b,
    ensures
        luminance(dim) <= luminance(bright),
        scheme_of(dim) == ColorScheme::Light ==> scheme_of(bright) == ColorScheme::Light,
        scheme_of(bright) == ColorScheme::Dark ==> scheme_of(dim) == ColorScheme::Dark,
{
}

} // verus!
