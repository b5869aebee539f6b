//! The renderer's native color: sixteen bits, five of red, six of green and
//! five of blue, red in the most significant position.
//!
//! This is the color format of a renderer built for a color depth of sixteen
//! bits without byte swap, and also the storage format of a 5-6-5 RGB drawing
//! surface, so a color reaches such a surface without loss.

use vstd::prelude::*;

verus! {

/// Largest value of the red and of the blue channel.
pub const MAX_RED_BLUE: u8 = 31;

/// Largest value of the green channel.
pub const MAX_GREEN: u8 = 63;

/// Bytes one native color occupies in a render buffer.
pub const COLOR_SIZE: u32 = 2;

/// The native word made of three channel values that are already in range.
pub open spec fn packed(red: int, green: int, blue: int) -> int {
    red * 2048 + green * 32 + blue
}

/// A color as the renderer stores it. Every sixteen-bit word is a color.
#[derive(Clone, Copy, Debug, PartialEq, Eq, Structural)]
pub struct Color {
    /// The native word: red in bits 11 to 15, green in bits 5 to 10, blue in
    /// bits 0 to 4.
    pub raw: u16,
}

impl Color {
    /// The red channel, between 0 and 31.
    pub open spec fn red(self) -> int {
        self.raw as int / 2048
    }

    /// The green channel, between 0 and 63.
    pub open spec fn green(self) -> int {
        (self.raw as int / 32) % 64
    }

    /// The blue channel, between 0 and 31.
    pub open spec fn blue(self) -> int {
        self.raw as int % 32
    }

    /// Decodes a native word taken from a render buffer.
    pub fn from_raw(raw: u16) -> (color: Color)
        ensures
            color.raw == raw,
    {
        Color { raw }
    }

    /// Encodes the color as the native word a render buffer holds.
    pub fn raw(&self) -> (raw: u16)
        ensures
            raw == self.raw,
    {
        self.raw
    }

    /// The red channel, five bits wide.
    pub fn r(&self) -> (red: u8)
        ensures
            red == self.red(),
            red <= MAX_RED_BLUE,
    {
        let raw: u16 = self.raw;
        assert(raw >> 11 == raw / 2048 && (raw >> 11) <= 31) by (bit_vector);
        (raw >> 11) as u8
    }

    /// The green channel, six bits wide.
    pub fn g(&self) -> (green: u8)
        ensures
            green == self.green(),
            green <= MAX_GREEN,
    {
        let raw: u16 = self.raw;
        assert((raw >> 5) & 63 == (raw / 32) % 64 && ((raw >> 5) & 63) <= 63) by (bit_vector);
        ((raw >> 5) & 63) as u8
    }

    /// The blue channel, five bits wide.
    pub fn b(&self) -> (blue: u8)
        ensures
            blue == self.blue(),
            blue <= MAX_RED_BLUE,
    {
        let raw: u16 = self.raw;
        assert(raw & 31 == raw % 32 && (raw & 31) <= 31) by (bit_vector);
        (raw & 31) as u8
    }

    /// Builds a color from channel values. Bits of a channel value above the
    /// channel's width are dropped.
    pub fn from_channels(red: u8, green: u8, blue: u8) -> (color: Color)
        ensures
            color.raw == packed(red as int % 32, green as int % 64, blue as int % 32),
    {
        let r: u16 = red as u16;
        let g: u16 = green as u16;
        let b: u16 = blue as u16;
        assert(((r & 31) << 11) | ((g & 63) << 5) | (b & 31) == (r % 32) * 2048 + (g % 64) * 32 + (b
            % 32)) by (bit_vector)
            requires
                r < 256,
                g < 256,
                b < 256,
        ;
        Color { raw: ((r & 31) << 11) | ((g & 63) << 5) | (b & 31) }
    }

    /// Builds the color nearest below an eight-bit-per-channel color: the low
    /// three bits of red and blue and the low two bits of green are dropped.
    pub fn from_rgb(red: u8, green: u8, blue: u8) -> (color: Color)
        ensures
            color.raw == packed(red as int / 8, green as int / 4, blue as int / 8),
    {
        let r: u16 = red as u16;
        let g: u16 = green as u16;
        let b: u16 = blue as u16;
        assert(((r >> 3) << 11) | ((g >> 2) << 5) | (b >> 3) == (r / 8) * 2048 + (g / 4) * 32 + (b
            / 8)) by (bit_vector)
            requires
                r < 256,
                g < 256,
                b < 256,
        ;
        Color { raw: ((r >> 3) << 11) | ((g >> 2) << 5) | (b >> 3) }
    }
}

/// Taking a native word apart into its channels and packing the channels
/// again gives the same word: no color is lost on the way through its
/// channels.
pub proof fn lemma_channels_round_trip(color: Color)
    ensures
        0 <= color.red() <= MAX_RED_BLUE,
        0 <= color.green() <= MAX_GREEN,
        0 <= color.blue() <= MAX_RED_BLUE,
        packed(color.red(), color.green(), color.blue()) == color.raw,
{
}

/// Channel values in range pack into a native word whose channels they are.
pub proof fn lemma_packed_channels(red: int, green: int, blue: int)
    requires
        0 <= red <= MAX_RED_BLUE,
        0 <= green <= MAX_GREEN,
        0 <= blue <= MAX_RED_BLUE,
    ensures
        0 <= packed(red, green, blue) <= u16::MAX,
        (Color { raw: packed(red, green, blue) as u16 }).red() == red,
        (Color { raw: packed(red, green, blue) as u16 }).green() == green,
        (Color { raw: packed(red, green, blue) as u16 }).blue() == blue,
{
}

} // verus!
