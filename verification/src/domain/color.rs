//! The color model: three 8-bit channels, compared channel by channel.

use crate::domain::text::{decimal, decimal_digits};
use vstd::prelude::*;
use vstd::string::*;

verus! {

/// An RGB color. There is no alpha channel: a target color is matched against
/// the red, green and blue bytes of a pixel only.
#[derive(Debug, Clone, Copy, PartialEq, Eq, Hash, Structural)]
pub struct Color {
    r: u8,
    g: u8,
    b: u8,
}

impl Color {
    /// The red channel, for use in contracts.
    pub closed spec fn spec_r(&self) -> u8 {
        self.r
    }

    /// The green channel, for use in contracts.
    pub closed spec fn spec_g(&self) -> u8 {
        self.g
    }

    /// The blue channel, for use in contracts.
    pub closed spec fn spec_b(&self) -> u8 {
        self.b
    }

    /// The textual form of the color: `rgb(R, G, B)` with decimal channels.
    pub open spec fn text(&self) -> Seq<char> {
        "rgb("@ + decimal_digits(self.r() as nat) + ", "@ + decimal_digits(self.g() as nat)
            + ", "@ + decimal_digits(self.b() as nat) + ")"@
    }

    /// Two colors with the same three channels are the same color.
    pub proof fn lemma_channels_determine_color(self, other: Color)
        requires
            self.r() == other.r(),
            self.g() == other.g(),
            self.b() == other.b(),
        ensures
            self == other,
    {
    }

    /// Creates a color from its red, green and blue channels.
    pub fn new(r: u8, g: u8, b: u8) -> (color: Self)
        ensures
            color.r() == r,
            color.g() == g,
            color.b() == b,
    {
        Self { r, g, b }
    }

    /// Returns the red channel value.
    #[verifier::when_used_as_spec(spec_r)]
    pub fn r(&self) -> (r: u8)
        ensures
            r == self.r(),
    {
        self.r
    }

    /// Returns the green channel value.
    #[verifier::when_used_as_spec(spec_g)]
    pub fn g(&self) -> (g: u8)
        ensures
            g == self.g(),
    {
        self.g
    }

    /// Returns the blue channel value.
    #[verifier::when_used_as_spec(spec_b)]
    pub fn b(&self) -> (b: u8)
        ensures
            b == self.b(),
    {
        self.b
    }

    /// Returns `true` if this color matches the given color exactly, that is
    /// if all three channels are equal.
    pub fn matches(&self, other: &Color) -> (same: bool)
        ensures
            same == (self.r() == other.r() && self.g() == other.g() && self.b() == other.b()),
            same == (*self == *other),
    {
        self == other
    }

    /// Renders the color as `rgb(R, G, B)`.
    pub fn to_string(&self) -> (text: String)
        ensures
            text@ == self.text(),
    {
        let mut text = String::from_str("rgb(");
        text.append(decimal(self.r as usize).as_str());
        text.append(", ");
        text.append(decimal(self.g as usize).as_str());
        text.append(", ");
        text.append(decimal(self.b as usize).as_str());
        text.append(")");
        text
    }
}

impl Default for Color {
    /// White, `rgb(255, 255, 255)`: the background that is cleared when
    /// nothing else is configured.
    fn default() -> (color: Self)
        ensures
            color.r() == 255,
            color.g() == 255,
            color.b() == 255,
    {
        Self::new(255, 255, 255)
    }
}

} // verus!
