use super::private::Sealed;
use super::{field, with_field, Format};
use crate::retro::pixel::uint::U5;
use vstd::prelude::*;

verus! {

/// A 16-bit pixel with five bits per colour: red in bits 10 to 14, green in
/// bits 5 to 9, blue in bits 0 to 4. Bit 15 carries no colour.
#[derive(Clone, Copy, Debug, PartialEq, Eq, Hash, Structural)]
pub struct ORGB1555 {
    raw_value: u16,
}

impl View for ORGB1555 {
    type V = u16;

    closed spec fn view(&self) -> u16 {
        self.raw_value
    }
}

impl ORGB1555 {
    /// The red channel of the raw value `raw`.
    pub open spec fn r_of(raw: u16) -> int {
        field(raw as int, 0x400, 0x20)
    }

    /// The green channel of the raw value `raw`.
    pub open spec fn g_of(raw: u16) -> int {
        field(raw as int, 0x20, 0x20)
    }

    /// The blue channel of the raw value `raw`.
    pub open spec fn b_of(raw: u16) -> int {
        field(raw as int, 1, 0x20)
    }

    /// Bit 15 of the raw value `raw`, which no channel uses.
    pub open spec fn unused_of(raw: u16) -> int {
        field(raw as int, 0x8000, 2)
    }

    /// `raw` with the red channel replaced by `value`.
    pub open spec fn with_r_of(raw: u16, value: int) -> int {
        with_field(raw as int, 0x400, 0x20, value)
    }

    /// `raw` with the green channel replaced by `value`.
    pub open spec fn with_g_of(raw: u16, value: int) -> int {
        with_field(raw as int, 0x20, 0x20, value)
    }

    /// `raw` with the blue channel replaced by `value`.
    pub open spec fn with_b_of(raw: u16, value: int) -> int {
        with_field(raw as int, 1, 0x20, value)
    }

    /// The pixel whose storage is `raw`.
    pub closed spec fn from_raw(raw: u16) -> ORGB1555 {
        ORGB1555 { raw_value: raw }
    }

    /// A pixel made of a raw value holds that value, and a pixel is the one
    /// made of its raw value: the two conversions lose and add nothing.
    pub proof fn lemma_raw_round_trip(raw: u16, p: ORGB1555)
        ensures
            Self::from_raw(raw)@ == raw,
            Self::from_raw(p@) == p,
    {
    }

    /// Every channel is a five-bit number, and the channels with bit 15 make
    /// up the raw value.
    pub proof fn lemma_channels(raw: u16)
        ensures
            0 <= Self::r_of(raw) <= 31,
            0 <= Self::g_of(raw) <= 31,
            0 <= Self::b_of(raw) <= 31,
            0 <= Self::unused_of(raw) <= 1,
            raw == Self::unused_of(raw) * 0x8000 + Self::r_of(raw) * 0x400 + Self::g_of(raw) * 0x20
                + Self::b_of(raw),
    {
    }

    /// The number composed of bit 15 and three five-bit channels is a raw
    /// value, and reading its channels gives them back.
    pub proof fn lemma_compose(unused: int, r: int, g: int, b: int)
        requires
            0 <= unused <= 1,
            0 <= r <= 31,
            0 <= g <= 31,
            0 <= b <= 31,
        ensures
            0 <= unused * 0x8000 + r * 0x400 + g * 0x20 + b <= u16::MAX,
            Self::unused_of((unused * 0x8000 + r * 0x400 + g * 0x20 + b) as u16) == unused,
            Self::r_of((unused * 0x8000 + r * 0x400 + g * 0x20 + b) as u16) == r,
            Self::g_of((unused * 0x8000 + r * 0x400 + g * 0x20 + b) as u16) == g,
            Self::b_of((unused * 0x8000 + r * 0x400 + g * 0x20 + b) as u16) == b,
    {
        let n = unused * 0x8000 + r * 0x400 + g * 0x20 + b;
        assert(n / 0x8000 == unused);
        assert(n / 0x400 == unused * 0x20 + r);
        assert(n / 0x20 == unused * 0x400 + r * 0x20 + g);
    }

    /// After the red channel is set to `value`, red reads `value` and nothing
    /// else has changed.
    pub proof fn lemma_with_r(raw: u16, value: int)
        requires
            0 <= value <= 31,
        ensures
            0 <= Self::with_r_of(raw, value) <= u16::MAX,
            Self::r_of(Self::with_r_of(raw, value) as u16) == value,
            Self::g_of(Self::with_r_of(raw, value) as u16) == Self::g_of(raw),
            Self::b_of(Self::with_r_of(raw, value) as u16) == Self::b_of(raw),
            Self::unused_of(Self::with_r_of(raw, value) as u16) == Self::unused_of(raw),
    {
        Self::lemma_channels(raw);
        Self::lemma_compose(Self::unused_of(raw), value, Self::g_of(raw), Self::b_of(raw));
    }

    /// After the green channel is set to `value`, green reads `value` and
    /// nothing else has changed.
    pub proof fn lemma_with_g(raw: u16, value: int)
        requires
            0 <= value <= 31,
        ensures
            0 <= Self::with_g_of(raw, value) <= u16::MAX,
            Self::g_of(Self::with_g_of(raw, value) as u16) == value,
            Self::r_of(Self::with_g_of(raw, value) as u16) == Self::r_of(raw),
            Self::b_of(Self::with_g_of(raw, value) as u16) == Self::b_of(raw),
            Self::unused_of(Self::with_g_of(raw, value) as u16) == Self::unused_of(raw),
    {
        Self::lemma_channels(raw);
        Self::lemma_compose(Self::unused_of(raw), Self::r_of(raw), value, Self::b_of(raw));
    }

    /// After the blue channel is set to `value`, blue reads `value` and
    /// nothing else has changed.
    pub proof fn lemma_with_b(raw: u16, value: int)
        requires
            0 <= value <= 31,
        ensures
            0 <= Self::with_b_of(raw, value) <= u16::MAX,
            Self::b_of(Self::with_b_of(raw, value) as u16) == value,
            Self::r_of(Self::with_b_of(raw, value) as u16) == Self::r_of(raw),
            Self::g_of(Self::with_b_of(raw, value) as u16) == Self::g_of(raw),
            Self::unused_of(Self::with_b_of(raw, value) as u16) == Self::unused_of(raw),
    {
        Self::lemma_channels(raw);
        Self::lemma_compose(Self::unused_of(raw), Self::r_of(raw), Self::g_of(raw), value);
    }

    /// The pixel whose storage is `value`. Every value is a pixel.
    pub fn new_with_raw_value(value: u16) -> (p: ORGB1555)
        ensures
            p == Self::from_raw(value),
            p@ == value,
    {
        ORGB1555 { raw_value: value }
    }

    /// The storage of the pixel.
    pub fn raw_value(&self) -> (value: u16)
        ensures
            value == self@,
    {
        self.raw_value
    }

    /// The red channel.
    pub fn r(&self) -> (c: U5)
        ensures
            c@ == Self::r_of(self@),
    {
        let raw = self.raw_value;
        assert((raw >> 10) & 0x1f == raw / 0x400 % 0x20 && (raw >> 10) & 0x1f <= 31) by (bit_vector);
        U5::new(((raw >> 10) & 0x1f) as u8)
    }

    /// The green channel.
    pub fn g(&self) -> (c: U5)
        ensures
            c@ == Self::g_of(self@),
    {
        let raw = self.raw_value;
        assert((raw >> 5) & 0x1f == raw / 0x20 % 0x20 && (raw >> 5) & 0x1f <= 31) by (bit_vector);
        U5::new(((raw >> 5) & 0x1f) as u8)
    }

    /// The blue channel.
    pub fn b(&self) -> (c: U5)
        ensures
            c@ == Self::b_of(self@),
    {
        let raw = self.raw_value;
        assert(raw & 0x1f == raw % 0x20 && raw & 0x1f <= 31) by (bit_vector);
        U5::new((raw & 0x1f) as u8)
    }

    /// A copy of the pixel with the red channel set to `value`.
    pub fn with_r(&self, value: U5) -> (p: ORGB1555)
        ensures
            p@ == Self::with_r_of(self@, value@),
    {
        let raw = self.raw_value;
        let v = value.value() as u16;
        assert((raw & !(0x1fu16 << 10)) | (v << 10) == raw - (raw / 0x400 % 0x20) * 0x400 + v * 0x400)
            by (bit_vector)
            requires
                v <= 31,
        ;
        ORGB1555 { raw_value: (raw & !(0x1fu16 << 10)) | (v << 10) }
    }

    /// A copy of the pixel with the green channel set to `value`.
    pub fn with_g(&self, value: U5) -> (p: ORGB1555)
        ensures
            p@ == Self::with_g_of(self@, value@),
    {
        let raw = self.raw_value;
        let v = value.value() as u16;
        assert((raw & !(0x1fu16 << 5)) | (v << 5) == raw - (raw / 0x20 % 0x20) * 0x20 + v * 0x20)
            by (bit_vector)
            requires
                v <= 31,
        ;
        ORGB1555 { raw_value: (raw & !(0x1fu16 << 5)) | (v << 5) }
    }

    /// A copy of the pixel with the blue channel set to `value`.
    pub fn with_b(&self, value: U5) -> (p: ORGB1555)
        ensures
            p@ == Self::with_b_of(self@, value@),
    {
        let raw = self.raw_value;
        let v = value.value() as u16;
        assert((raw & !0x1fu16) | v == raw - (raw % 0x20) + v) by (bit_vector)
            requires
                v <= 31,
        ;
        ORGB1555 { raw_value: (raw & !0x1fu16) | v }
    }

    /// Sets the red channel to `value`.
    pub fn set_r(&mut self, value: U5)
        ensures
            final(self)@ == Self::with_r_of(old(self)@, value@),
    {
        *self = self.with_r(value);
    }

    /// Sets the green channel to `value`.
    pub fn set_g(&mut self, value: U5)
        ensures
            final(self)@ == Self::with_g_of(old(self)@, value@),
    {
        *self = self.with_g(value);
    }

    /// Sets the blue channel to `value`.
    pub fn set_b(&mut self, value: U5)
        ensures
            final(self)@ == Self::with_b_of(old(self)@, value@),
    {
        *self = self.with_b(value);
    }
}

impl Default for ORGB1555 {
    /// The pixel whose storage is zero.
    fn default() -> (p: ORGB1555)
        ensures
            p == ORGB1555::from_raw(0),
            p@ == 0,
    {
        ORGB1555 { raw_value: 0 }
    }
}

impl Sealed for ORGB1555 {
}

impl Format for ORGB1555 {
    open spec fn spec_size() -> nat {
        2
    }

    open spec fn spec_raw(&self) -> nat {
        self@ as nat
    }

    proof fn lemma_size() {
    }

    proof fn lemma_raw_fits(&self) {
    }

    fn size() -> (n: usize) {
        2
    }

    fn raw(&self) -> (raw: u32) {
        self.raw_value as u32
    }
}

} // verus!
