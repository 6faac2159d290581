//! The device's sample record: packed color and quantized coordinates,
//! and its fixed 8-byte little-endian wire layout.

use vstd::prelude::*;

verus! {

/// Largest quantized coordinate the device accepts.
pub const XY_MAX: u16 = 4095;

/// A quantized coordinate in device units, valid in `0..=XY_MAX`.
#[derive(Clone, Copy, PartialEq, Eq, Structural, PartialOrd, Ord, Debug, Hash)]
pub struct XY(pub u16);

impl XY {
    /// Whether the coordinate lies in the device's range.
    pub open spec fn is_valid(self) -> bool {
        self.0 <= XY_MAX
    }

    /// Mirrors the coordinate across the middle of the axis.
    pub fn flip(self) -> (r: Self)
        requires
            self.is_valid(),
        ensures
            r.0 == XY_MAX - self.0,
            r.is_valid(),
    {
        XY(XY_MAX - self.0)
    }
}

/// The fields of a sample as plain values.
pub struct SampleView {
    /// Red in the low byte, green in the high byte.
    pub rg: u16,
    /// Blue in the low byte; the high byte is unused.
    pub b: u16,
    pub x: u16,
    pub y: u16,
}

impl SampleView {
    /// The blue field fits in its low byte and both coordinates are in range.
    pub open spec fn is_valid(self) -> bool {
        self.b < 256 && self.x <= XY_MAX && self.y <= XY_MAX
    }

    /// A sample is blank when it emits no light.
    pub open spec fn is_blank(self) -> bool {
        self.rg == 0 && self.b == 0
    }

    /// The same position with both color fields cleared.
    pub open spec fn blanked(self) -> SampleView {
        SampleView { rg: 0, b: 0, x: self.x, y: self.y }
    }
}

/// One point of output: color and position in device units.
#[derive(Clone, Copy, PartialEq, Eq, Structural, Debug, Hash)]
pub struct LaserdockSample {
    rg: u16,
    b: u16,
    x: XY,
    y: XY,
}

impl View for LaserdockSample {
    type V = SampleView;

    closed spec fn view(&self) -> SampleView {
        SampleView { rg: self.rg, b: self.b, x: self.x.0, y: self.y.0 }
    }
}

/// `s` with both color fields cleared.
pub closed spec fn blank_of(s: LaserdockSample) -> LaserdockSample {
    LaserdockSample { rg: 0, b: 0, x: s.x, y: s.y }
}

/// A blanked sample keeps the position and emits no light.
pub proof fn lemma_blank_of(s: LaserdockSample)
    ensures
        blank_of(s)@ == s@.blanked(),
        blank_of(s)@.is_blank(),
{
}

/// Little-endian bytes of a 16-bit field.
pub open spec fn u16_le(v: u16) -> Seq<u8> {
    seq![(v % 256) as u8, (v / 256) as u8]
}

/// The 16-bit value of a low and a high byte.
pub open spec fn le_u16(lo: u8, hi: u8) -> u16 {
    (lo + 256 * hi) as u16
}

/// The wire record of a sample: `rg`, `b`, `x`, `y`, each little-endian.
pub open spec fn sample_bytes(v: SampleView) -> Seq<u8> {
    u16_le(v.rg) + u16_le(v.b) + u16_le(v.x) + u16_le(v.y)
}

/// The fields that an 8-byte wire record holds.
pub open spec fn decode_sample(b: Seq<u8>) -> SampleView {
    SampleView {
        rg: le_u16(b[0], b[1]),
        b: le_u16(b[2], b[3]),
        x: le_u16(b[4], b[5]),
        y: le_u16(b[6], b[7]),
    }
}

/// Decoding a sample's wire record gives back its fields.
pub proof fn lemma_sample_bytes_decode(v: SampleView)
    ensures
        sample_bytes(v).len() == 8,
        decode_sample(sample_bytes(v)) == v,
{
}

/// Encoding the fields decoded from any 8 bytes gives back those bytes.
pub proof fn lemma_decode_sample_bytes(b: Seq<u8>)
    requires
        b.len() == 8,
    ensures
        sample_bytes(decode_sample(b)) == b,
{
    assert(sample_bytes(decode_sample(b)) =~= b);
}

/// The color fields for channels `r`, `g` and `b`: `r | g << 8` and `b`.
pub open spec fn packed_color(r: u8, g: u8, b: u8) -> (u16, u16) {
    ((r + 256 * g) as u16, b as u16)
}

fn u16_to_le(v: u16) -> (r: [u8; 2])
    ensures
        r@ == u16_le(v),
{
    let r = [(v % 256) as u8, (v / 256) as u8];
    assert(r@ =~= u16_le(v));
    r
}

fn u16_from_le(lo: u8, hi: u8) -> (r: u16)
    ensures
        r == le_u16(lo, hi),
{
    lo as u16 + (hi as u16) * 256
}

impl LaserdockSample {
    /// Builds a sample from 8-bit color channels and quantized coordinates.
    pub fn new_xy(r: u8, g: u8, b: u8, x: XY, y: XY) -> (s: LaserdockSample)
        ensures
            (s@.rg, s@.b) == packed_color(r, g, b),
            s@.x == x.0,
            s@.y == y.0,
            x.is_valid() && y.is_valid() ==> s@.is_valid(),
    {
        LaserdockSample { rg: r as u16 + (g as u16) * 256, b: b as u16, x, y }
    }

    pub fn rg(&self) -> (r: u16)
        ensures
            r == self@.rg,
    {
        self.rg
    }

    pub fn b(&self) -> (r: u16)
        ensures
            r == self@.b,
    {
        self.b
    }

    pub fn x(&self) -> (r: XY)
        ensures
            r.0 == self@.x,
    {
        self.x
    }

    pub fn y(&self) -> (r: XY)
        ensures
            r.0 == self@.y,
    {
        self.y
    }

    /// Whether the sample emits no light.
    pub fn is_blank(&self) -> (r: bool)
        ensures
            r == self@.is_blank(),
    {
        self.rg == 0 && self.b == 0
    }

    /// A copy at the same position with both color fields cleared.
    pub fn blanked(&self) -> (r: LaserdockSample)
        ensures
            r@ == self@.blanked(),
            r == blank_of(*self),
    {
        LaserdockSample { rg: 0, b: 0, x: self.x, y: self.y }
    }

    /// The sample's 8-byte little-endian wire record.
    pub fn to_bytes(&self) -> (r: [u8; 8])
        ensures
            r@ == sample_bytes(self@),
    {
        let rg = u16_to_le(self.rg);
        let b = u16_to_le(self.b);
        let x = u16_to_le(self.x.0);
        let y = u16_to_le(self.y.0);
        let r = [rg[0], rg[1], b[0], b[1], x[0], x[1], y[0], y[1]];
        assert(r@ =~= sample_bytes(self@));
        r
    }

    /// Reads a sample from its wire record; `None` when the record holds a
    /// blue field over 255 or a coordinate over `XY_MAX`.
    pub fn from_bytes(bytes: &[u8; 8]) -> (r: Option<LaserdockSample>)
        ensures
            r is Some <==> decode_sample(bytes@).is_valid(),
            r matches Some(s) ==> s@ == decode_sample(bytes@),
    {
        let rg = u16_from_le(bytes[0], bytes[1]);
        let b = u16_from_le(bytes[2], bytes[3]);
        let x = u16_from_le(bytes[4], bytes[5]);
        let y = u16_from_le(bytes[6], bytes[7]);
        if b < 256 && x <= XY_MAX && y <= XY_MAX {
            Some(LaserdockSample { rg, b, x: XY(x), y: XY(y) })
        } else {
            None
        }
    }
}

} // verus!
