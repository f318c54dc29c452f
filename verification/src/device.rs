//! The logical colour of the light: its packed 24-bit form and its brightness.
//!
//! Brightness is not a stored quantity. It is the value component of the
//! colour in the hue/saturation/value model, as a percentage, and is computed
//! here in exact integer arithmetic.

use vstd::prelude::*;

verus! {

/// A colour as three byte channels.
#[derive(Debug, Clone, Copy, PartialEq, Eq, Structural)]
pub struct Rgb {
    pub r: u8,
    pub g: u8,
    pub b: u8,
}

/// The packed form of a colour: red in bits 16 to 23, green in bits 8 to 15,
/// blue in bits 0 to 7.
pub open spec fn spectrum_of(c: Rgb) -> int {
    c.r * 65536 + c.g * 256 + c.b
}

/// The colour that a packed integer stands for.
///
/// The integer is read through its upper-case hexadecimal form, padded with
/// zeros to six digits; a negative one is taken in 32-bit two's complement.
/// The first six digits are the three channels, two digits each. For a number
/// of at most six digits these are bits 16 to 23, 8 to 15 and 0 to 7; for one
/// of seven digits the last digit is cut off, for one of eight the last two.
pub open spec fn rgb_of_spectrum(v: int) -> Rgb {
    let n = if v < 0 { v + 0x1_0000_0000 } else { v };
    if n < 0x100_0000 {
        Rgb { r: ((n / 0x1_0000) % 256) as u8, g: ((n / 0x100) % 256) as u8, b: (n % 256) as u8 }
    } else if n < 0x1000_0000 {
        Rgb {
            r: ((n / 0x10_0000) % 256) as u8,
            g: ((n / 0x1000) % 256) as u8,
            b: ((n / 0x10) % 256) as u8,
        }
    } else {
        Rgb {
            r: ((n / 0x100_0000) % 256) as u8,
            g: ((n / 0x1_0000) % 256) as u8,
            b: ((n / 0x100) % 256) as u8,
        }
    }
}

/// The largest of the three channels.
pub open spec fn max_channel(c: Rgb) -> int {
    if c.r >= c.g && c.r >= c.b {
        c.r as int
    } else if c.g >= c.b {
        c.g as int
    } else {
        c.b as int
    }
}

/// The brightness of a colour: its value component (the largest channel over
/// 255) as a percentage, rounded down.
pub open spec fn brightness_of(c: Rgb) -> int {
    (100 * max_channel(c)) / 255
}

/// One channel of a colour whose largest channel is `max`, after the value
/// component has been set to `brightness` percent. Hue and saturation fix the
/// ratio of each channel to the largest one, so the channel becomes
/// `255 * (brightness / 100) * (channel / max)`, rounded down and capped at
/// 255. Black has no hue and no saturation and becomes a grey.
pub open spec fn scaled_channel(channel: int, max: int, brightness: int) -> int {
    let exact = if max == 0 {
        (255 * brightness) / 100
    } else {
        (255 * brightness * channel) / (100 * max)
    };
    if exact > 255 { 255 } else { exact }
}

/// A colour with its value component replaced by `brightness` percent, hue
/// and saturation kept.
pub open spec fn with_brightness(c: Rgb, brightness: int) -> Rgb {
    let max = max_channel(c);
    Rgb {
        r: scaled_channel(c.r as int, max, brightness) as u8,
        g: scaled_channel(c.g as int, max, brightness) as u8,
        b: scaled_channel(c.b as int, max, brightness) as u8,
    }
}

fn scale_channel(channel: u8, max: u8, brightness: u8) -> (scaled: u8)
    requires
        channel <= max,
    ensures
        scaled == scaled_channel(channel as int, max as int, brightness as int),
{
    let exact: u32 = if max == 0 {
        (255 * (brightness as u32)) / 100
    } else {
        assert(255 * (brightness as int) * (channel as int) <= 255 * 255 * 255)
            by (nonlinear_arith)
            requires
                0 <= brightness <= 255,
                0 <= channel <= 255,
        ;
        (255 * (brightness as u32) * (channel as u32)) / (100 * (max as u32))
    };
    if exact > 255 {
        255
    } else {
        exact as u8
    }
}

impl Rgb {
    /// The brightness of the colour, from 0 to 100.
    pub fn get_brightness(&self) -> (percent: u8)
        ensures
            percent == brightness_of(*self),
            percent <= 100,
    {
        let max: u8 = if self.r >= self.g && self.r >= self.b {
            self.r
        } else if self.g >= self.b {
            self.g
        } else {
            self.b
        };
        ((100 * (max as u32)) / 255) as u8
    }

    /// Sets the brightness to `brightness` percent and keeps hue and
    /// saturation. A brightness over 100 saturates each channel at 255.
    pub fn set_brightness(&mut self, brightness: u8)
        ensures
            *final(self) == with_brightness(*old(self), brightness as int),
    {
        let max: u8 = if self.r >= self.g && self.r >= self.b {
            self.r
        } else if self.g >= self.b {
            self.g
        } else {
            self.b
        };
        let r = scale_channel(self.r, max, brightness);
        let g = scale_channel(self.g, max, brightness);
        let b = scale_channel(self.b, max, brightness);
        self.r = r;
        self.g = g;
        self.b = b;
    }

    /// Black: every channel zero.
    pub fn off() -> (c: Self)
        ensures
            c == (Rgb { r: 0, g: 0, b: 0 }),
    {
        Rgb { r: 0, g: 0, b: 0 }
    }

    /// White: every channel at its maximum.
    pub fn on() -> (c: Self)
        ensures
            c == (Rgb { r: 255, g: 255, b: 255 }),
    {
        Rgb { r: 255, g: 255, b: 255 }
    }

    /// Whether the colour is black.
    pub fn is_off(&self) -> (off: bool)
        ensures
            off <==> *self == (Rgb { r: 0, g: 0, b: 0 }),
    {
        self.r == 0 && self.g == 0 && self.b == 0
    }

    /// Decodes a packed colour.
    pub fn from_spectrum_rgb(spectrum_rgb: i32) -> (c: Self)
        ensures
            c == rgb_of_spectrum(spectrum_rgb as int),
    {
        let n: i64 = if spectrum_rgb < 0 {
            spectrum_rgb as i64 + 0x1_0000_0000
        } else {
            spectrum_rgb as i64
        };
        if n < 0x100_0000 {
            Rgb { r: ((n / 0x1_0000) % 256) as u8, g: ((n / 0x100) % 256) as u8, b: (n % 256) as u8 }
        } else if n < 0x1000_0000 {
            Rgb {
                r: ((n / 0x10_0000) % 256) as u8,
                g: ((n / 0x1000) % 256) as u8,
                b: ((n / 0x10) % 256) as u8,
            }
        } else {
            Rgb {
                r: ((n / 0x100_0000) % 256) as u8,
                g: ((n / 0x1_0000) % 256) as u8,
                b: ((n / 0x100) % 256) as u8,
            }
        }
    }

    /// Encodes the colour as a packed integer.
    pub fn into_spectrum_rgb(&self) -> (v: i32)
        ensures
            v == spectrum_of(*self),
            0 <= v <= 0xFF_FFFF,
    {
        (self.r as i32) * 65536 + (self.g as i32) * 256 + (self.b as i32)
    }
}

/// The packed form written with shifts: `(r << 16) | (g << 8) | b`.
pub proof fn spectrum_is_shifted_channels(c: Rgb)
    ensures
        spectrum_of(c) == ((c.r as u32) << 16) | ((c.g as u32) << 8) | (c.b as u32),
{
    let r = c.r as u32;
    let g = c.g as u32;
    let b = c.b as u32;
    assert(r * 65536 + g * 256 + b == (r << 16) | (g << 8) | b) by (bit_vector)
        requires
            r < 256,
            g < 256,
            b < 256,
    ;
}

/// Decoding undoes encoding: every colour comes back from its packed form.
pub proof fn spectrum_round_trip(c: Rgb)
    ensures
        rgb_of_spectrum(spectrum_of(c)) == c,
{
}

/// A colour set to its own brightness keeps its proportions: no channel
/// grows, and none loses more than three steps to rounding.
pub proof fn brightness_round_trip(c: Rgb)
    ensures
        ({
            let d = with_brightness(c, brightness_of(c));
            &&& c.r - 3 <= d.r <= c.r
            &&& c.g - 3 <= d.g <= c.g
            &&& c.b - 3 <= d.b <= c.b
        }),
{
    let max = max_channel(c);
    own_brightness_channel(c.r as int, max);
    own_brightness_channel(c.g as int, max);
    own_brightness_channel(c.b as int, max);
}

proof fn own_brightness_channel(channel: int, max: int)
    requires
        0 <= channel <= max <= 255,
    ensures
        channel - 3 <= scaled_channel(channel, max, (100 * max) / 255) <= channel,
{
    let p = (100 * max) / 255;
    if max > 0 {
        let d = 100 * max;
        let x = 255 * p * channel;
        assert(x <= d * channel) by (nonlinear_arith)
            requires
                x == 255 * p * channel,
                255 * p <= d,
                channel >= 0,
        ;
        assert(x >= d * (channel - 3)) by (nonlinear_arith)
            requires
                x == 255 * p * channel,
                255 * p >= d - 254,
                d == 100 * max,
                0 <= channel <= max,
        ;
        assert(x / d <= channel) by (nonlinear_arith)
            requires
                x <= d * channel,
                d > 0,
        ;
        assert(x / d >= channel - 3) by (nonlinear_arith)
            requires
                x >= d * (channel - 3),
                d > 0,
        ;
    }
}

/// Brightness zero turns every colour black.
pub proof fn zero_brightness_is_black(c: Rgb)
    ensures
        with_brightness(c, 0) == (Rgb { r: 0, g: 0, b: 0 }),
{
    let max = max_channel(c);
    if max > 0 {
        assert(0int / (100 * max) == 0) by (nonlinear_arith)
            requires
                max > 0,
        ;
    }
}

} // verus!
