use vstd::prelude::*;

verus! {

/// An RGBA color with 8 bits per channel.
#[derive(Clone, Copy, Debug, PartialEq, Eq, Structural, PartialOrd, Ord, Hash)]
pub struct Color {
    pub r: u8,
    pub g: u8,
    pub b: u8,
    pub a: u8,
}

/// The default annotation color: orange `(240, 147, 43, 255)`.
pub open spec fn spec_orange() -> Color {
    Color { r: 240, g: 147, b: 43, a: 255 }
}

impl Color {
    pub fn new(r: u8, g: u8, b: u8, a: u8) -> (c: Self)
        ensures
            c == (Color { r, g, b, a }),
    {
        Self { r, g, b, a }
    }

    pub fn orange() -> (c: Self)
        ensures
            c == spec_orange(),
    {
        Self::new(240, 147, 43, 255)
    }
}

impl Default for Color {
    fn default() -> (c: Self)
        ensures
            c == spec_orange(),
    {
        Color::orange()
    }
}

/// The three annotation sizes; `Medium` is the default.
#[derive(Debug, PartialEq, Eq, Structural, PartialOrd, Ord, Clone, Copy, Hash)]
pub enum Size {
    Small,
    Medium,
    Large,
}

impl Default for Size {
    fn default() -> (s: Self)
        ensures
            s == Size::Medium,
    {
        Size::Medium
    }
}

} // verus!
