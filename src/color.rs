use vstd::prelude::*;
use vstd::string::StringSliceAdditionalSpecFns;

verus! {

/// An opaque colour with one byte per channel.
#[derive(Clone, Copy, Debug, PartialEq, Eq, Structural)]
pub struct Rgb {
    pub r: u8,
    pub g: u8,
    pub b: u8,
}

/// The elevation bands of the palette, from the sea up.
#[derive(Clone, Copy, Debug, PartialEq, Eq, Structural)]
pub enum Band {
    Water,
    Sand,
    Grass,
    DarkGrass,
    Rock,
    Snow,
}

/// Per-channel multipliers in 16.16 fixed point: 65536 stands for 1.
#[derive(Clone, Copy, Debug, PartialEq, Eq, Structural)]
pub struct Attenuation {
    pub r: u32,
    pub g: u32,
    pub b: u32,
}

/// The fixed-point value of 1.
pub const UNIT: u32 = 65536;

/// The highest height byte that still counts as water.
pub const WATER_LINE: u8 = 110;

pub open spec fn spec_band(v: u8) -> Band {
    if v <= 110 {
        Band::Water
    } else if v <= 130 {
        Band::Sand
    } else if v <= 150 {
        Band::Grass
    } else if v <= 180 {
        Band::DarkGrass
    } else if v <= 210 {
        Band::Rock
    } else {
        Band::Snow
    }
}

pub open spec fn spec_palette(b: Band) -> Rgb {
    match b {
        Band::Water => Rgb { r: 0x44, g: 0x82, b: 0x85 },
        Band::Sand => Rgb { r: 0xfa, g: 0xbd, b: 0x2f },
        Band::Grass => Rgb { r: 0xb8, g: 0xbb, b: 0x26 },
        Band::DarkGrass => Rgb { r: 0x98, g: 0x97, b: 0x1a },
        Band::Rock => Rgb { r: 0x92, g: 0x83, b: 0x74 },
        Band::Snow => Rgb { r: 0xfb, g: 0xf1, b: 0xc7 },
    }
}

/// `c` times the fixed-point factor `f`, truncated, and held at 255.
pub open spec fn spec_scale(c: u8, f: u32) -> u8 {
    let v = (c as int * f as int) / (UNIT as int);
    if v > 255 {
        255
    } else {
        v as u8
    }
}

pub open spec fn spec_apply_shadow(c: Rgb, a: Attenuation) -> Rgb {
    Rgb { r: spec_scale(c.r, a.r), g: spec_scale(c.g, a.g), b: spec_scale(c.b, a.b) }
}

pub open spec fn spec_color_for(v: u8, a: Attenuation) -> Rgb {
    spec_apply_shadow(spec_palette(spec_band(v)), a)
}

/// The value of an ASCII hexadecimal digit, either case.
pub open spec fn spec_hex_digit(d: u8) -> Option<u8> {
    if 0x30 <= d <= 0x39 {
        Some((d - 0x30) as u8)
    } else if 0x61 <= d <= 0x66 {
        Some((d - 0x61 + 10) as u8)
    } else if 0x41 <= d <= 0x46 {
        Some((d - 0x41 + 10) as u8)
    } else {
        None
    }
}

pub open spec fn is_hex_digit(d: u8) -> bool {
    spec_hex_digit(d).is_some()
}

/// The byte written by the two hexadecimal digits `hi` and `lo`.
pub open spec fn spec_hex_byte(hi: u8, lo: u8) -> u8 {
    (spec_hex_digit(hi).unwrap() * 16 + spec_hex_digit(lo).unwrap()) as u8
}

/// Six hexadecimal digits `rrggbb`.
pub open spec fn is_hex_color(s: Seq<u8>) -> bool {
    s.len() == 6 && forall|i: int| 0 <= i < 6 ==> is_hex_digit(#[trigger] s[i])
}

pub open spec fn spec_from_hex(s: Seq<u8>) -> Rgb {
    Rgb {
        r: spec_hex_byte(s[0], s[1]),
        g: spec_hex_byte(s[2], s[3]),
        b: spec_hex_byte(s[4], s[5]),
    }
}

fn hex_digit(d: u8) -> (r: Option<u8>)
    ensures
        r == spec_hex_digit(d),
        r matches Some(v) ==> v < 16,
{
    if 0x30 <= d && d <= 0x39 {
        Some(d - 0x30)
    } else if 0x61 <= d && d <= 0x66 {
        Some(d - 0x61 + 10)
    } else if 0x41 <= d && d <= 0x46 {
        Some(d - 0x41 + 10)
    } else {
        None
    }
}

fn hex_byte(hi: u8, lo: u8) -> (r: Option<u8>)
    ensures
        r.is_some() <==> is_hex_digit(hi) && is_hex_digit(lo),
        r matches Some(v) ==> v == spec_hex_byte(hi, lo),
{
    match (hex_digit(hi), hex_digit(lo)) {
        (Some(h), Some(l)) => Some(h * 16 + l),
        _ => None,
    }
}

impl Rgb {
    /// Reads a colour written as six hexadecimal digits `rrggbb` (either
    /// case, no prefix); `None` for any other text.
    pub fn from_hex(s: &str) -> (r: Option<Rgb>)
        ensures
            r.is_some() <==> is_hex_color(s.spec_bytes()),
            r matches Some(c) ==> c == spec_from_hex(s.spec_bytes()),
    {
        let b = s.as_bytes();
        if b.len() != 6 {
            return None;
        }
        let red = hex_byte(b[0], b[1]);
        let green = hex_byte(b[2], b[3]);
        let blue = hex_byte(b[4], b[5]);
        match (red, green, blue) {
            (Some(r), Some(g), Some(bl)) => {
                assert(forall|i: int| 0 <= i < 6 ==> is_hex_digit(#[trigger] b@[i])) by {
                    assert(is_hex_digit(b@[0]) && is_hex_digit(b@[1]) && is_hex_digit(b@[2]));
                    assert(is_hex_digit(b@[3]) && is_hex_digit(b@[4]) && is_hex_digit(b@[5]));
                }
                Some(Rgb { r, g, b: bl })
            },
            _ => None,
        }
    }
}

/// The band that a height byte falls in: up to 110 water, up to 130 sand,
/// up to 150 grass, up to 180 dark grass, up to 210 rock, above that snow.
pub fn band_of(v: u8) -> (r: Band)
    ensures
        r == spec_band(v),
{
    if v <= WATER_LINE {
        Band::Water
    } else if v <= 130 {
        Band::Sand
    } else if v <= 150 {
        Band::Grass
    } else if v <= 180 {
        Band::DarkGrass
    } else if v <= 210 {
        Band::Rock
    } else {
        Band::Snow
    }
}

/// The fixed colour of each band.
pub fn palette(b: Band) -> (r: Rgb)
    ensures
        r == spec_palette(b),
{
    match b {
        Band::Water => Rgb { r: 0x44, g: 0x82, b: 0x85 },
        Band::Sand => Rgb { r: 0xfa, g: 0xbd, b: 0x2f },
        Band::Grass => Rgb { r: 0xb8, g: 0xbb, b: 0x26 },
        Band::DarkGrass => Rgb { r: 0x98, g: 0x97, b: 0x1a },
        Band::Rock => Rgb { r: 0x92, g: 0x83, b: 0x74 },
        Band::Snow => Rgb { r: 0xfb, g: 0xf1, b: 0xc7 },
    }
}

fn scale(c: u8, f: u32) -> (r: u8)
    ensures
        r == spec_scale(c, f),
{
    assert(c as int * f as int <= 255 * 0xffff_ffff) by (nonlinear_arith);
    let v: u64 = (c as u64) * (f as u64) / (UNIT as u64);
    if v > 255 {
        255
    } else {
        v as u8
    }
}

impl Attenuation {
    /// Leaves every channel as it is.
    pub fn none() -> (r: Attenuation)
        ensures
            r == (Attenuation { r: UNIT, g: UNIT, b: UNIT }),
    {
        Attenuation { r: UNIT, g: UNIT, b: UNIT }
    }
}

/// Multiplies each channel by its factor, truncates, and holds the result at 255.
pub fn apply_shadow(c: Rgb, a: Attenuation) -> (r: Rgb)
    ensures
        r == spec_apply_shadow(c, a),
{
    Rgb { r: scale(c.r, a.r), g: scale(c.g, a.g), b: scale(c.b, a.b) }
}

/// The palette colour of the band of height byte `v`, attenuated by `a`.
pub fn color_for(v: u8, a: Attenuation) -> (r: Rgb)
    ensures
        r == spec_color_for(v, a),
{
    apply_shadow(palette(band_of(v)), a)
}

/// An attenuation of exactly 1 on every channel gives back the colour unchanged.
pub proof fn lemma_unit_attenuation_keeps_color(c: Rgb)
    ensures
        spec_apply_shadow(c, Attenuation { r: UNIT, g: UNIT, b: UNIT }) == c,
{
    assert(c.r as int * UNIT as int / UNIT as int == c.r as int) by (nonlinear_arith);
    assert(c.g as int * UNIT as int / UNIT as int == c.g as int) by (nonlinear_arith);
    assert(c.b as int * UNIT as int / UNIT as int == c.b as int) by (nonlinear_arith);
}

proof fn lemma_scale_darkens(c: u8, f: u32)
    requires
        c > 0,
        f < UNIT,
    ensures
        spec_scale(c, f) < c,
{
    assert((c as int) * (f as int) < (c as int) * (UNIT as int)) by (nonlinear_arith)
        requires
            c > 0,
            f < UNIT,
    ;
    assert((c as int) * (f as int) / (UNIT as int) < (c as int)) by (nonlinear_arith)
        requires
            (c as int) * (f as int) < (c as int) * (UNIT as int),
            0 <= (c as int) * (f as int),
    ;
}

/// Every factor below 1 makes each nonzero channel strictly darker.
pub proof fn lemma_shadow_darkens(c: Rgb, a: Attenuation)
    requires
        c.r > 0 && c.g > 0 && c.b > 0,
        a.r < UNIT && a.g < UNIT && a.b < UNIT,
    ensures
        spec_apply_shadow(c, a).r < c.r,
        spec_apply_shadow(c, a).g < c.g,
        spec_apply_shadow(c, a).b < c.b,
{
    lemma_scale_darkens(c.r, a.r);
    lemma_scale_darkens(c.g, a.g);
    lemma_scale_darkens(c.b, a.b);
}

/// A shadowed snow cell is strictly darker on every channel than the
/// unshadowed one, for every attenuation below 1.
pub proof fn lemma_shadowed_snow_is_darker(v: u8, a: Attenuation)
    requires
        v > 210,
        a.r < UNIT && a.g < UNIT && a.b < UNIT,
    ensures
        spec_color_for(v, a).r < spec_color_for(v, Attenuation { r: UNIT, g: UNIT, b: UNIT }).r,
        spec_color_for(v, a).g < spec_color_for(v, Attenuation { r: UNIT, g: UNIT, b: UNIT }).g,
        spec_color_for(v, a).b < spec_color_for(v, Attenuation { r: UNIT, g: UNIT, b: UNIT }).b,
{
    let c = spec_palette(spec_band(v));
    lemma_unit_attenuation_keeps_color(c);
    lemma_shadow_darkens(c, a);
}

} // verus!
