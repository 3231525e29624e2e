//! The pixel type and its integer conversions.

use vstd::prelude::*;

verus! {

/// An RGBA pixel. 0-255 linear. The four channels are stored in the order
/// red, green, blue, alpha, one byte each, as an 8-bit normalized RGBA texel.
#[derive(Clone, Copy, Debug, PartialEq, Eq, Hash, Structural)]
pub struct Pixel {
    /// Red channel
    pub r: u8,
    /// Green channel
    pub g: u8,
    /// Blue channel
    pub b: u8,
    /// Alpha channel
    pub a: u8,
}

/// Asks `rand::random` for a `u32`. Nothing is promised of the value: it
/// comes from the thread-local generator and differs from call to call.
#[verifier::external_body]
fn random_u32() -> u32 {
    rand::random::<u32>()
}

impl Pixel {
    /// Fully opaque white
    pub fn white() -> (p: Pixel)
        ensures
            p == (Pixel { r: 255, g: 255, b: 255, a: 255 }),
    {
        Pixel { r: 255, g: 255, b: 255, a: 255 }
    }

    /// Fully opaque black
    pub fn black() -> (p: Pixel)
        ensures
            p == (Pixel { r: 0, g: 0, b: 0, a: 255 }),
    {
        Pixel { r: 0, g: 0, b: 0, a: 255 }
    }

    /// Fully transparent black, the value of a freshly allocated image
    pub fn transparent() -> (p: Pixel)
        ensures
            p == (Pixel { r: 0, g: 0, b: 0, a: 0 }),
    {
        Pixel { r: 0, g: 0, b: 0, a: 0 }
    }

    /// Fully opaque red
    pub fn red() -> (p: Pixel)
        ensures
            p == (Pixel { r: 255, g: 0, b: 0, a: 255 }),
    {
        Pixel { r: 255, g: 0, b: 0, a: 255 }
    }

    /// Fully opaque green
    pub fn green() -> (p: Pixel)
        ensures
            p == (Pixel { r: 0, g: 255, b: 0, a: 255 }),
    {
        Pixel { r: 0, g: 255, b: 0, a: 255 }
    }

    /// Fully opaque blue
    pub fn blue() -> (p: Pixel)
        ensures
            p == (Pixel { r: 0, g: 0, b: 255, a: 255 }),
    {
        Pixel { r: 0, g: 0, b: 255, a: 255 }
    }

    /// The pixel that a `u32` stands for: its bytes from the least
    /// significant one up are red, green, blue and alpha.
    pub open spec fn of_u32(c: u32) -> Pixel {
        Pixel {
            r: (c % 0x100) as u8,
            g: (c / 0x100 % 0x100) as u8,
            b: (c / 0x1_0000 % 0x100) as u8,
            a: (c / 0x100_0000) as u8,
        }
    }

    /// The pixel with the colour channels of `c` and full opacity.
    pub fn solid(c: u32) -> (p: Pixel)
        ensures
            p.r == Pixel::of_u32(c).r,
            p.g == Pixel::of_u32(c).g,
            p.b == Pixel::of_u32(c).b,
            p.a == 255,
    {
        let opaque: u32 = c | 0xff00_0000;
        assert(opaque % 0x100 == c % 0x100 && opaque / 0x100 % 0x100 == c / 0x100 % 0x100
            && opaque / 0x1_0000 % 0x100 == c / 0x1_0000 % 0x100 && opaque / 0x100_0000 == 255)
            by (bit_vector)
            requires
                opaque == c | 0xff00_0000,
        ;
        Pixel::from(opaque)
    }

    /// Gets a random pixel. Solid, alpha is 255.
    pub fn random() -> (p: Pixel)
        ensures
            p.a == 255,
    {
        Pixel::solid(random_u32())
    }
}

impl From<[u8; 4]> for Pixel {
    fn from(c: [u8; 4]) -> (p: Pixel) {
        Pixel { r: c[0], g: c[1], b: c[2], a: c[3] }
    }
}

impl vstd::std_specs::convert::FromSpecImpl<[u8; 4]> for Pixel {
    open spec fn obeys_from_spec() -> bool {
        true
    }

    open spec fn from_spec(c: [u8; 4]) -> Pixel {
        Pixel { r: c[0], g: c[1], b: c[2], a: c[3] }
    }
}

impl From<u32> for Pixel {
    fn from(c: u32) -> (p: Pixel) {
        let r: u32 = c & 0xff;
        let g: u32 = (c >> 8) & 0xff;
        let b: u32 = (c >> 16) & 0xff;
        let a: u32 = c >> 24;
        assert(r == c % 0x100 && g == c / 0x100 % 0x100 && b == c / 0x1_0000 % 0x100 && a == c
            / 0x100_0000 && a < 0x100) by (bit_vector)
            requires
                r == c & 0xff,
                g == (c >> 8) & 0xff,
                b == (c >> 16) & 0xff,
                a == c >> 24,
        ;
        Pixel { r: r as u8, g: g as u8, b: b as u8, a: a as u8 }
    }
}

impl vstd::std_specs::convert::FromSpecImpl<u32> for Pixel {
    open spec fn obeys_from_spec() -> bool {
        true
    }

    open spec fn from_spec(c: u32) -> Pixel {
        Pixel::of_u32(c)
    }
}

} // verus!
