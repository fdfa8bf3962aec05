use vstd::prelude::*;

verus! {

/// An opaque colour with red, green and blue channels.
#[derive(Clone, Copy, PartialEq, Eq, Structural, Hash, Debug)]
pub struct Rgb {
    pub r: u8,
    pub g: u8,
    pub b: u8,
}

/// A colour with an alpha channel in front of red, green and blue.
#[derive(Clone, Copy, PartialEq, Eq, Structural, Hash, Debug)]
pub struct Argb {
    pub a: u8,
    pub r: u8,
    pub g: u8,
    pub b: u8,
}

/// The colour packed as `0xRRGGBB`.
pub open spec fn rgb_packed(c: Rgb) -> int {
    c.r * 0x10000 + c.g * 0x100 + c.b
}

/// The colour packed as `0xAARRGGBB`.
pub open spec fn argb_packed(c: Argb) -> int {
    c.a * 0x1000000 + c.r * 0x10000 + c.g * 0x100 + c.b
}

/// `c` with the alpha channel `a`.
pub open spec fn rgb_with_alpha(c: Rgb, a: u8) -> Argb {
    Argb { a, r: c.r, g: c.g, b: c.b }
}

/// `c` without its alpha channel.
pub open spec fn argb_without_alpha(c: Argb) -> Rgb {
    Rgb { r: c.r, g: c.g, b: c.b }
}

impl Rgb {
    pub fn new(r: u8, g: u8, b: u8) -> (c: Self)
        ensures
            c == (Rgb { r, g, b }),
    {
        Rgb { r, g, b }
    }

    pub fn splat(v: u8) -> (c: Self)
        ensures
            c == (Rgb { r: v, g: v, b: v }),
    {
        Rgb { r: v, g: v, b: v }
    }

    pub fn black() -> (c: Self)
        ensures
            c == (Rgb { r: 0, g: 0, b: 0 }),
    {
        Rgb { r: 0, g: 0, b: 0 }
    }

    pub fn dark_blue() -> (c: Self)
        ensures
            c == (Rgb { r: 0, g: 0, b: 170 }),
    {
        Rgb { r: 0, g: 0, b: 170 }
    }

    pub fn dark_green() -> (c: Self)
        ensures
            c == (Rgb { r: 0, g: 170, b: 0 }),
    {
        Rgb { r: 0, g: 170, b: 0 }
    }

    pub fn dark_cyan() -> (c: Self)
        ensures
            c == (Rgb { r: 0, g: 170, b: 170 }),
    {
        Rgb { r: 0, g: 170, b: 170 }
    }

    pub fn dark_red() -> (c: Self)
        ensures
            c == (Rgb { r: 170, g: 0, b: 0 }),
    {
        Rgb { r: 170, g: 0, b: 0 }
    }

    pub fn purple() -> (c: Self)
        ensures
            c == (Rgb { r: 170, g: 0, b: 170 }),
    {
        Rgb { r: 170, g: 0, b: 170 }
    }

    pub fn orange() -> (c: Self)
        ensures
            c == (Rgb { r: 255, g: 170, b: 0 }),
    {
        Rgb { r: 255, g: 170, b: 0 }
    }

    pub fn grey() -> (c: Self)
        ensures
            c == (Rgb { r: 170, g: 170, b: 170 }),
    {
        Rgb { r: 170, g: 170, b: 170 }
    }

    pub fn dark_grey() -> (c: Self)
        ensures
            c == (Rgb { r: 85, g: 85, b: 85 }),
    {
        Rgb { r: 85, g: 85, b: 85 }
    }

    pub fn blue() -> (c: Self)
        ensures
            c == (Rgb { r: 85, g: 85, b: 255 }),
    {
        Rgb { r: 85, g: 85, b: 255 }
    }

    pub fn green() -> (c: Self)
        ensures
            c == (Rgb { r: 85, g: 255, b: 85 }),
    {
        Rgb { r: 85, g: 255, b: 85 }
    }

    pub fn cyan() -> (c: Self)
        ensures
            c == (Rgb { r: 85, g: 255, b: 255 }),
    {
        Rgb { r: 85, g: 255, b: 255 }
    }

    pub fn red() -> (c: Self)
        ensures
            c == (Rgb { r: 255, g: 85, b: 85 }),
    {
        Rgb { r: 255, g: 85, b: 85 }
    }

    pub fn pink() -> (c: Self)
        ensures
            c == (Rgb { r: 255, g: 85, b: 255 }),
    {
        Rgb { r: 255, g: 85, b: 255 }
    }

    pub fn yellow() -> (c: Self)
        ensures
            c == (Rgb { r: 255, g: 255, b: 85 }),
    {
        Rgb { r: 255, g: 255, b: 85 }
    }

    pub fn white() -> (c: Self)
        ensures
            c == (Rgb { r: 255, g: 255, b: 255 }),
    {
        Rgb { r: 255, g: 255, b: 255 }
    }

    pub fn with_alpha(self, a: u8) -> (c: Argb)
        ensures
            c == rgb_with_alpha(self, a),
    {
        Argb { a, r: self.r, g: self.g, b: self.b }
    }

    pub fn opaque(self) -> (c: Argb)
        ensures
            c == rgb_with_alpha(self, 255),
    {
        Argb { a: 255, r: self.r, g: self.g, b: self.b }
    }

    /// The colour as `0xRRGGBB`.
    pub fn to_u32(self) -> (v: u32)
        ensures
            v == rgb_packed(self),
            v < 0x1000000,
    {
        let r = self.r as u32;
        let g = self.g as u32;
        let b = self.b as u32;
        let v = (r << 16u32) | (g << 8u32) | b;
        assert(v == r * 0x10000 + g * 0x100 + b && v < 0x1000000) by (bit_vector)
            requires
                r < 256,
                g < 256,
                b < 256,
                v == (r << 16u32) | (g << 8u32) | b,
        ;
        v
    }
}

impl Argb {
    pub fn new(a: u8, r: u8, g: u8, b: u8) -> (c: Self)
        ensures
            c == (Argb { a, r, g, b }),
    {
        Argb { a, r, g, b }
    }

    pub fn splat(a: u8, v: u8) -> (c: Self)
        ensures
            c == (Argb { a, r: v, g: v, b: v }),
    {
        Argb { a, r: v, g: v, b: v }
    }

    pub fn black() -> (c: Self)
        ensures
            c == (Argb { a: 255, r: 0, g: 0, b: 0 }),
    {
        Argb { a: 255, r: 0, g: 0, b: 0 }
    }

    pub fn dark_blue() -> (c: Self)
        ensures
            c == (Argb { a: 255, r: 0, g: 0, b: 170 }),
    {
        Argb { a: 255, r: 0, g: 0, b: 170 }
    }

    pub fn dark_green() -> (c: Self)
        ensures
            c == (Argb { a: 255, r: 0, g: 170, b: 0 }),
    {
        Argb { a: 255, r: 0, g: 170, b: 0 }
    }

    pub fn dark_cyan() -> (c: Self)
        ensures
            c == (Argb { a: 255, r: 0, g: 170, b: 170 }),
    {
        Argb { a: 255, r: 0, g: 170, b: 170 }
    }

    pub fn dark_red() -> (c: Self)
        ensures
            c == (Argb { a: 255, r: 170, g: 0, b: 0 }),
    {
        Argb { a: 255, r: 170, g: 0, b: 0 }
    }

    pub fn purple() -> (c: Self)
        ensures
            c == (Argb { a: 255, r: 170, g: 0, b: 170 }),
    {
        Argb { a: 255, r: 170, g: 0, b: 170 }
    }

    pub fn orange() -> (c: Self)
        ensures
            c == (Argb { a: 255, r: 255, g: 170, b: 0 }),
    {
        Argb { a: 255, r: 255, g: 170, b: 0 }
    }

    pub fn grey() -> (c: Self)
        ensures
            c == (Argb { a: 255, r: 170, g: 170, b: 170 }),
    {
        Argb { a: 255, r: 170, g: 170, b: 170 }
    }

    pub fn dark_grey() -> (c: Self)
        ensures
            c == (Argb { a: 255, r: 85, g: 85, b: 85 }),
    {
        Argb { a: 255, r: 85, g: 85, b: 85 }
    }

    pub fn blue() -> (c: Self)
        ensures
            c == (Argb { a: 255, r: 85, g: 85, b: 255 }),
    {
        Argb { a: 255, r: 85, g: 85, b: 255 }
    }

    pub fn green() -> (c: Self)
        ensures
            c == (Argb { a: 255, r: 85, g: 255, b: 85 }),
    {
        Argb { a: 255, r: 85, g: 255, b: 85 }
    }

    pub fn cyan() -> (c: Self)
        ensures
            c == (Argb { a: 255, r: 85, g: 255, b: 255 }),
    {
        Argb { a: 255, r: 85, g: 255, b: 255 }
    }

    pub fn red() -> (c: Self)
        ensures
            c == (Argb { a: 255, r: 255, g: 85, b: 85 }),
    {
        Argb { a: 255, r: 255, g: 85, b: 85 }
    }

    pub fn pink() -> (c: Self)
        ensures
            c == (Argb { a: 255, r: 255, g: 85, b: 255 }),
    {
        Argb { a: 255, r: 255, g: 85, b: 255 }
    }

    pub fn yellow() -> (c: Self)
        ensures
            c == (Argb { a: 255, r: 255, g: 255, b: 85 }),
    {
        Argb { a: 255, r: 255, g: 255, b: 85 }
    }

    pub fn white() -> (c: Self)
        ensures
            c == (Argb { a: 255, r: 255, g: 255, b: 255 }),
    {
        Argb { a: 255, r: 255, g: 255, b: 255 }
    }

    pub fn transparent() -> (c: Self)
        ensures
            c == (Argb { a: 0, r: 0, g: 0, b: 0 }),
    {
        Argb { a: 0, r: 0, g: 0, b: 0 }
    }

    pub fn without_alpha(self) -> (c: Rgb)
        ensures
            c == argb_without_alpha(self),
    {
        Rgb { r: self.r, g: self.g, b: self.b }
    }

    /// The colour as `0xAARRGGBB`.
    pub fn to_u32(self) -> (v: u32)
        ensures
            v == argb_packed(self),
    {
        let a = self.a as u32;
        let r = self.r as u32;
        let g = self.g as u32;
        let b = self.b as u32;
        let v = (a << 24u32) | (r << 16u32) | (g << 8u32) | b;
        assert(v == a * 0x1000000 + r * 0x10000 + g * 0x100 + b) by (bit_vector)
            requires
                a < 256,
                r < 256,
                g < 256,
                b < 256,
                v == (a << 24u32) | (r << 16u32) | (g << 8u32) | b,
        ;
        v
    }
}

impl From<Rgb> for Argb {
    fn from(value: Rgb) -> (c: Self) {
        value.opaque()
    }
}

impl vstd::std_specs::convert::FromSpecImpl<Rgb> for Argb {
    open spec fn obeys_from_spec() -> bool {
        true
    }

    open spec fn from_spec(v: Rgb) -> Argb {
        rgb_with_alpha(v, 255)
    }
}

/// Giving a colour an alpha channel and dropping it again gives back the colour; the
/// packed form of the result is the alpha value above the packed colour.
pub proof fn lemma_alpha_roundtrip(c: Rgb, a: u8)
    ensures
        argb_without_alpha(rgb_with_alpha(c, a)) == c,
        argb_packed(rgb_with_alpha(c, a)) == a * 0x1000000 + rgb_packed(c),
{
}

/// Two colours with the same packed form are the same colour.
pub proof fn lemma_rgb_packed_injective(c1: Rgb, c2: Rgb)
    requires
        rgb_packed(c1) == rgb_packed(c2),
    ensures
        c1 == c2,
{
    let (r1, g1, b1, r2, g2, b2) = (c1.r, c1.g, c1.b, c2.r, c2.g, c2.b);
    assert(r1 == r2 && g1 == g2 && b1 == b2) by (nonlinear_arith)
        requires
            r1 * 0x10000 + g1 * 0x100 + b1 == r2 * 0x10000 + g2 * 0x100 + b2,
            0 <= r1 < 256, 0 <= g1 < 256, 0 <= b1 < 256,
            0 <= r2 < 256, 0 <= g2 < 256, 0 <= b2 < 256,
    ;
}

} // verus!
