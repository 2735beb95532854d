//! Colour sources for the painter.

use vstd::prelude::*;

verus! {

/// The value of a colour channel at full intensity.
///
/// It is the least scale on which both a byte out of 255 and a whole
/// percentage are whole numbers.
pub const CHANNEL_FULL: u16 = 25500;

/// A source colour: each channel is a fraction of `CHANNEL_FULL`.
#[derive(Clone, Copy, Debug, PartialEq, Eq, Structural)]
pub struct Color {
    pub red: u16,
    pub green: u16,
    pub blue: u16,
}

/// The byte of `color` that starts at bit `shift`.
pub open spec fn channel_byte(color: u32, shift: u32) -> u32 {
    (color >> shift) & 0xff
}

/// The colour that `0xRRGGBB` names: each byte over 255.
pub open spec fn spec_rgb_hex(color: u32) -> Color {
    Color {
        red: (channel_byte(color, 16) * 100) as u16,
        green: (channel_byte(color, 8) * 100) as u16,
        blue: (channel_byte(color, 0) * 100) as u16,
    }
}

/// The fade from red (0 percent) over yellow (50 percent) to green (100
/// percent): red is full up to the middle and then falls linearly, green
/// rises linearly up to the middle and is then full.
pub open spec fn spec_rgb_rgfade(percent: u8) -> Color {
    if percent <= 50 {
        Color { red: CHANNEL_FULL, green: (510 * percent) as u16, blue: 0 }
    } else {
        Color { red: (510 * (100 - percent)) as u16, green: CHANNEL_FULL, blue: 0 }
    }
}

/// The source colour for `0xRRGGBB`; the top byte of `color` is ignored.
pub fn cairo_source_rgb_hex(color: u32) -> (source: Color)
    ensures
        source == spec_rgb_hex(color),
        source.red <= CHANNEL_FULL,
        source.green <= CHANNEL_FULL,
        source.blue <= CHANNEL_FULL,
{
    let r: u32 = (color >> 16) & 0xff;
    let g: u32 = (color >> 8) & 0xff;
    let b: u32 = (color >> 0) & 0xff;
    assert(((color >> 16u32) & 0xff) <= 0xff) by (bit_vector);
    assert(((color >> 8u32) & 0xff) <= 0xff) by (bit_vector);
    assert(((color >> 0u32) & 0xff) <= 0xff) by (bit_vector);
    Color { red: (r * 100) as u16, green: (g * 100) as u16, blue: (b * 100) as u16 }
}

/// The source colour of the red-to-green fade at `percent`.
pub fn cairo_source_rgb_rgfade(percent: u8) -> (source: Color)
    requires
        percent <= 100,
    ensures
        source == spec_rgb_rgfade(percent),
        source.red <= CHANNEL_FULL,
        source.green <= CHANNEL_FULL,
        source.blue == 0,
{
    let p: u16 = percent as u16;
    if percent <= 50 {
        Color { red: CHANNEL_FULL, green: 510 * p, blue: 0 }
    } else {
        Color { red: 510 * (100 - p), green: CHANNEL_FULL, blue: 0 }
    }
}

} // verus!
