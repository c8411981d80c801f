//! Units of measurement for CSS property values.
//!
//! Lengths carry integer magnitudes: the supported grammar subset accepts
//! whole-number dimensions only, so a pixel length round-trips exactly as the
//! integer that was written in the source text.

use vstd::prelude::*;

verus! {

/// A length in one of the supported units. `Em` values are kept symbolic:
/// resolving them against a font size is outside this layer.
#[derive(Clone, Copy, PartialEq, Eq, Structural, Debug)]
pub enum Length {
    Px(i64),
    Em(i64),
}

/// The generic font families of CSS 2.1.
#[derive(Clone, Copy, PartialEq, Eq, Structural, Debug)]
pub enum GenericFontFamily {
    Serif,
    SansSerif,
    Cursive,
    Fantasy,
    Monospace,
}

/// Absolute font-size keywords.
#[derive(Clone, Copy, PartialEq, Eq, Structural, Debug)]
pub enum AbsoluteSize {
    XXSmall,
    XSmall,
    Small,
    Medium,
    Large,
    XLarge,
    XXLarge,
}

/// Relative font-size keywords.
#[derive(Clone, Copy, PartialEq, Eq, Structural, Debug)]
pub enum RelativeSize {
    Larger,
    Smaller,
}

/// A box dimension: a length, an integer percentage, or `auto`.
#[derive(Clone, Copy, PartialEq, Eq, Structural, Debug)]
pub enum BoxSizing {
    BoxLength(Length),
    BoxPercent(i64),
    BoxAuto,
}

} // verus!
