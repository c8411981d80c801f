//! RGBA colors and the named-color table of the supported subset.
//!
//! Channels are bytes. The alpha channel is kept as the raw byte the engine
//! model works in (255 = fully opaque); rescaling it to a unit interval is a
//! presentation concern outside this layer.

use vstd::prelude::*;
use vstd::string::StringSliceAdditionalSpecFns;

verus! {

/// A color as four byte channels; `a == 255` means fully opaque.
#[derive(Clone, Copy, PartialEq, Eq, Structural, Debug)]
pub struct Color {
    pub r: u8,
    pub g: u8,
    pub b: u8,
    pub a: u8,
}

/// A fully opaque color from its three RGB channels.
pub fn rgb(r: u8, g: u8, b: u8) -> (c: Color)
    ensures
        c == (Color { r, g, b, a: 255u8 }),
{
    Color { r, g, b, a: 255 }
}

/// A color from all four channels.
pub fn rgba(r: u8, g: u8, b: u8, a: u8) -> (c: Color)
    ensures
        c == (Color { r, g, b, a }),
{
    Color { r, g, b, a }
}

/// The standard triple of the color name `red`.
pub open spec fn spec_red() -> Color {
    Color { r: 255, g: 0, b: 0, a: 255 }
}

/// The standard triple of the color name `green`.
pub open spec fn spec_green() -> Color {
    Color { r: 0, g: 128, b: 0, a: 255 }
}

/// The standard triple of the color name `blue`.
pub open spec fn spec_blue() -> Color {
    Color { r: 0, g: 0, b: 255, a: 255 }
}

/// The standard triple of the color name `yellow`.
pub open spec fn spec_yellow() -> Color {
    Color { r: 255, g: 255, b: 0, a: 255 }
}

/// The standard triple of the color name `black`.
pub open spec fn spec_black() -> Color {
    Color { r: 0, g: 0, b: 0, a: 255 }
}

/// The standard triple of the color name `white`.
pub open spec fn spec_white() -> Color {
    Color { r: 255, g: 255, b: 255, a: 255 }
}

pub fn red() -> (c: Color)
    ensures
        c == spec_red(),
{
    rgb(255, 0, 0)
}

pub fn green() -> (c: Color)
    ensures
        c == spec_green(),
{
    rgb(0, 128, 0)
}

pub fn blue() -> (c: Color)
    ensures
        c == spec_blue(),
{
    rgb(0, 0, 255)
}

pub fn yellow() -> (c: Color)
    ensures
        c == spec_yellow(),
{
    rgb(255, 255, 0)
}

pub fn black() -> (c: Color)
    ensures
        c == spec_black(),
{
    rgb(0, 0, 0)
}

pub fn white() -> (c: Color)
    ensures
        c == spec_white(),
{
    rgb(255, 255, 255)
}

/// The color a name denotes, or `None` for a name outside the supported table.
pub open spec fn spec_named_color(name: Seq<u8>) -> Option<Color> {
    if name == "red".spec_bytes() {
        Some(spec_red())
    } else if name == "green".spec_bytes() {
        Some(spec_green())
    } else if name == "blue".spec_bytes() {
        Some(spec_blue())
    } else if name == "yellow".spec_bytes() {
        Some(spec_yellow())
    } else if name == "black".spec_bytes() {
        Some(spec_black())
    } else if name == "white".spec_bytes() {
        Some(spec_white())
    } else {
        None
    }
}

/// Looks a color name up in the supported table.
pub fn named_color(name: &Vec<u8>) -> (c: Option<Color>)
    ensures
        c == spec_named_color(name@),
{
    if crate::parse::bytes_is(name, "red") {
        Some(red())
    } else if crate::parse::bytes_is(name, "green") {
        Some(green())
    } else if crate::parse::bytes_is(name, "blue") {
        Some(blue())
    } else if crate::parse::bytes_is(name, "yellow") {
        Some(yellow())
    } else if crate::parse::bytes_is(name, "black") {
        Some(black())
    } else if crate::parse::bytes_is(name, "white") {
        Some(white())
    } else {
        None
    }
}

} // verus!
