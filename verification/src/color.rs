//! Colours with saturating channel arithmetic.

use vstd::prelude::*;
use crate::scalar::{quotient, Scalar, LIMIT, SCALE};

verus! {

/// The integer `i` brought into the range of a colour channel.
pub open spec fn channel(i: int) -> u8 {
    if i < 0 {
        0u8
    } else if i > 255 {
        255u8
    } else {
        i as u8
    }
}

/// A colour of three channels, each between 0 and 255.
#[derive(Clone, Copy, Debug, PartialEq, Eq, Structural)]
pub struct Color {
    pub r: u8,
    pub g: u8,
    pub b: u8,
}

impl Color {
    pub open spec fn spec_new(r: u8, g: u8, b: u8) -> Color {
        Color { r, g, b }
    }

    pub open spec fn spec_black() -> Color {
        Color { r: 0, g: 0, b: 0 }
    }

    /// The colour packed as `0xRRGGBB`.
    pub open spec fn spec_to_hex(self) -> u32 {
        (self.r as int * 65536 + self.g as int * 256 + self.b as int) as u32
    }

    /// The colour that the low 24 bits of `hex` pack as `0xRRGGBB`.
    pub open spec fn spec_from_hex(hex: u32) -> Color {
        Color {
            r: ((hex as int / 65536) % 256) as u8,
            g: ((hex as int / 256) % 256) as u8,
            b: (hex as int % 256) as u8,
        }
    }

    /// The channelwise sum, each channel saturating at 255.
    pub open spec fn spec_add(self, other: Color) -> Color {
        Color {
            r: channel(self.r + other.r),
            g: channel(self.g + other.g),
            b: channel(self.b + other.b),
        }
    }

    /// Every channel multiplied by `k`, rounded toward zero and brought back
    /// into 0 to 255.
    pub open spec fn spec_scale(self, k: Scalar) -> Color {
        Color {
            r: channel(quotient(self.r * k@, SCALE as int)),
            g: channel(quotient(self.g * k@, SCALE as int)),
            b: channel(quotient(self.b * k@, SCALE as int)),
        }
    }

    #[verifier::when_used_as_spec(spec_new)]
    pub fn new(r: u8, g: u8, b: u8) -> (c: Color)
        ensures
            c == Color::spec_new(r, g, b),
    {
        Color { r, g, b }
    }

    #[verifier::when_used_as_spec(spec_black)]
    pub fn black() -> (c: Color)
        ensures
            c == Color::spec_black(),
    {
        Color { r: 0, g: 0, b: 0 }
    }

    #[verifier::when_used_as_spec(spec_to_hex)]
    pub fn to_hex(self) -> (hex: u32)
        ensures
            hex == self.spec_to_hex(),
            hex == self.r * 65536 + self.g * 256 + self.b,
    {
        self.r as u32 * 65536 + self.g as u32 * 256 + self.b as u32
    }

    #[verifier::when_used_as_spec(spec_from_hex)]
    pub fn from_hex(hex: u32) -> (c: Color)
        ensures
            c == Color::spec_from_hex(hex),
    {
        Color {
            r: ((hex / 65536) % 256) as u8,
            g: ((hex / 256) % 256) as u8,
            b: (hex % 256) as u8,
        }
    }

    #[verifier::when_used_as_spec(spec_add)]
    pub fn add(self, other: Color) -> (c: Color)
        ensures
            c == self.spec_add(other),
    {
        Color {
            r: Color::saturating_channel(self.r as i128 + other.r as i128),
            g: Color::saturating_channel(self.g as i128 + other.g as i128),
            b: Color::saturating_channel(self.b as i128 + other.b as i128),
        }
    }

    #[verifier::when_used_as_spec(spec_scale)]
    pub fn scale(self, k: Scalar) -> (c: Color)
        ensures
            c == self.spec_scale(k),
    {
        Color {
            r: Color::scale_channel(self.r, k),
            g: Color::scale_channel(self.g, k),
            b: Color::scale_channel(self.b, k),
        }
    }

    fn saturating_channel(v: i128) -> (c: u8)
        ensures
            c == channel(v as int),
    {
        if v < 0 {
            0
        } else if v > 255 {
            255
        } else {
            v as u8
        }
    }

    fn scale_channel(value: u8, k: Scalar) -> (c: u8)
        ensures
            c == channel(quotient(value * k@, SCALE as int)),
    {
        let factor: i128 = k.units() as i128;
        let wide: i128 = value as i128;
        let scale: i128 = SCALE as i128;
        assert(-(255 * LIMIT) <= wide * factor <= 255 * LIMIT) by (nonlinear_arith)
            requires
                0 <= wide <= 255,
                -LIMIT <= factor <= LIMIT,
        ;
        let product: i128 = wide * factor;
        let scaled: i128 = if product < 0 {
            -((-product) / scale)
        } else {
            product / scale
        };
        Color::saturating_channel(scaled)
    }
}

} // verus!
