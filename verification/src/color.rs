//! Color model: HSV hue-wheel conversion at full saturation and value, and
//! reordering of channels into the byte order the LED hardware expects.
use vstd::prelude::*;

verus! {

/// One RGB color, each channel in 0..=255.
#[derive(Clone, Copy, PartialEq, Eq, Structural, Debug)]
pub struct Rgb {
    pub r: u8,
    pub g: u8,
    pub b: u8,
}

/// The rising edge of a hue sector: how far channel brightness has climbed
/// `frac` sixtieths of the way through a 60-degree sector.
pub open spec fn rise(frac: int) -> int {
    frac * 255 / 60
}

/// The falling edge of a hue sector: brightness left after `frac` sixtieths.
pub open spec fn fall(frac: int) -> int {
    (60 - frac) * 255 / 60
}

/// Standard sector-based HSV-to-RGB conversion at saturation 1 and value 1:
/// six 60-degree sectors, each linear in one channel.
pub open spec fn spec_hue_rgb(hue: int) -> Rgb
    recommends
        0 <= hue < 360,
{
    let sector = hue / 60;
    let frac = hue % 60;
    if sector == 0 {
        Rgb { r: 255, g: rise(frac) as u8, b: 0 }
    } else if sector == 1 {
        Rgb { r: fall(frac) as u8, g: 255, b: 0 }
    } else if sector == 2 {
        Rgb { r: 0, g: 255, b: rise(frac) as u8 }
    } else if sector == 3 {
        Rgb { r: 0, g: fall(frac) as u8, b: 255 }
    } else if sector == 4 {
        Rgb { r: rise(frac) as u8, g: 0, b: 255 }
    } else {
        Rgb { r: 255, g: 0, b: fall(frac) as u8 }
    }
}

/// HSV-to-RGB at full saturation and value, the only form the colorloop
/// animation needs. `hue` is in degrees.
pub fn hue_to_rgb(hue: u16) -> (out: Rgb)
    requires
        hue < 360,
    ensures
        out == spec_hue_rgb(hue as int),
{
    let sector: u16 = hue / 60;
    let frac: u16 = hue % 60;
    let up: u8 = ((frac as u32 * 255) / 60) as u8;
    let down: u8 = (((60 - frac) as u32 * 255) / 60) as u8;
    if sector == 0 {
        Rgb { r: 255, g: up, b: 0 }
    } else if sector == 1 {
        Rgb { r: down, g: 255, b: 0 }
    } else if sector == 2 {
        Rgb { r: 0, g: 255, b: up }
    } else if sector == 3 {
        Rgb { r: 0, g: down, b: 255 }
    } else if sector == 4 {
        Rgb { r: up, g: 0, b: 255 }
    } else {
        Rgb { r: 255, g: 0, b: down }
    }
}

/// The byte orders in which supported LED parts expect their channels.
#[derive(Clone, Copy, PartialEq, Eq, Structural, Debug)]
pub enum ByteOrder {
    /// Red, green, blue: the logical order.
    Rgb,
    /// Green, red, blue: the wire order of WS2812-style parts.
    Grb,
}

/// The three channel bytes of `c` in the given device byte order.
pub open spec fn spec_device_frame(c: Rgb, order: ByteOrder) -> Seq<u8> {
    match order {
        ByteOrder::Rgb => seq![c.r, c.g, c.b],
        ByteOrder::Grb => seq![c.g, c.r, c.b],
    }
}

/// Reorders a color's channels into the byte order a device expects.
pub fn to_device_byte_order(c: Rgb, order: ByteOrder) -> (out: Vec<u8>)
    ensures
        out@ == spec_device_frame(c, order),
{
    let mut out: Vec<u8> = Vec::new();
    match order {
        ByteOrder::Rgb => {
            out.push(c.r);
            out.push(c.g);
            out.push(c.b);
        },
        ByteOrder::Grb => {
            out.push(c.g);
            out.push(c.r);
            out.push(c.b);
        },
    }
    proof {
        assert(out@ =~= spec_device_frame(c, order));
    }
    out
}

/// The GRB frame for a color: what a WS2812 signal line is fed.
pub fn to_grb(c: Rgb) -> (out: Vec<u8>)
    ensures
        out@ == seq![c.g, c.r, c.b],
{
    let out = to_device_byte_order(c, ByteOrder::Grb);
    proof {
        assert(out@ =~= seq![c.g, c.r, c.b]);
    }
    out
}

} // verus!
