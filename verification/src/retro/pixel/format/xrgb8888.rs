use super::private::Sealed;
use super::{field, with_field, Format};
use vstd::prelude::*;

verus! {

/// A 32-bit pixel with eight bits per channel: padding in bits 24 to 31, red
/// in bits 16 to 23, green in bits 8 to 15, blue in bits 0 to 7.
#[derive(Clone, Copy, Debug, PartialEq, Eq, Hash, Structural)]
pub struct XRGB8888 {
    raw_value: u32,
}

impl View for XRGB8888 {
    type V = u32;

    closed spec fn view(&self) -> u32 {
        self.raw_value
    }
}

impl XRGB8888 {
    /// The padding channel of the raw value `raw`.
    pub open spec fn x_of(raw: u32) -> int {
        field(raw as int, 0x1000000, 0x100)
    }

    /// The red channel of the raw value `raw`.
    pub open spec fn r_of(raw: u32) -> int {
        field(raw as int, 0x10000, 0x100)
    }

    /// The green channel of the raw value `raw`.
    pub open spec fn g_of(raw: u32) -> int {
        field(raw as int, 0x100, 0x100)
    }

    /// The blue channel of the raw value `raw`.
    pub open spec fn b_of(raw: u32) -> int {
        field(raw as int, 1, 0x100)
    }

    /// `raw` with the padding channel replaced by `value`.
    pub open spec fn with_x_of(raw: u32, value: int) -> int {
        with_field(raw as int, 0x1000000, 0x100, value)
    }

    /// `raw` with the red channel replaced by `value`.
    pub open spec fn with_r_of(raw: u32, value: int) -> int {
        with_field(raw as int, 0x10000, 0x100, value)
    }

    /// `raw` with the green channel replaced by `value`.
    pub open spec fn with_g_of(raw: u32, value: int) -> int {
        with_field(raw as int, 0x100, 0x100, value)
    }

    /// `raw` with the blue channel replaced by `value`.
    pub open spec fn with_b_of(raw: u32, value: int) -> int {
        with_field(raw as int, 1, 0x100, value)
    }

    /// The pixel whose storage is `raw`.
    pub closed spec fn from_raw(raw: u32) -> XRGB8888 {
        XRGB8888 { raw_value: raw }
    }

    /// A pixel made of a raw value holds that value, and a pixel is the one
    /// made of its raw value: the two conversions lose and add nothing.
    pub proof fn lemma_raw_round_trip(raw: u32, p: XRGB8888)
        ensures
            Self::from_raw(raw)@ == raw,
            Self::from_raw(p@) == p,
    {
    }

    /// Every channel is an eight-bit number, and the four make up the raw
    /// value.
    pub proof fn lemma_channels(raw: u32)
        ensures
            0 <= Self::x_of(raw) <= 255,
            0 <= Self::r_of(raw) <= 255,
            0 <= Self::g_of(raw) <= 255,
            0 <= Self::b_of(raw) <= 255,
            raw == Self::x_of(raw) * 0x1000000 + Self::r_of(raw) * 0x10000 + Self::g_of(raw) * 0x100
                + Self::b_of(raw),
    {
    }

    /// The number composed of four eight-bit channels is a raw value, and
    /// reading its channels gives the four back.
    pub proof fn lemma_compose(x: int, r: int, g: int, b: int)
        requires
            0 <= x <= 255,
            0 <= r <= 255,
            0 <= g <= 255,
            0 <= b <= 255,
        ensures
            0 <= x * 0x1000000 + r * 0x10000 + g * 0x100 + b <= u32::MAX,
            Self::x_of((x * 0x1000000 + r * 0x10000 + g * 0x100 + b) as u32) == x,
            Self::r_of((x * 0x1000000 + r * 0x10000 + g * 0x100 + b) as u32) == r,
            Self::g_of((x * 0x1000000 + r * 0x10000 + g * 0x100 + b) as u32) == g,
            Self::b_of((x * 0x1000000 + r * 0x10000 + g * 0x100 + b) as u32) == b,
    {
        let n = x * 0x1000000 + r * 0x10000 + g * 0x100 + b;
        assert(n / 0x1000000 == x);
        assert(n / 0x10000 == x * 0x100 + r);
        assert(n / 0x100 == x * 0x10000 + r * 0x100 + g);
    }

    /// After the padding channel is set to `value`, padding reads `value` and
    /// nothing else has changed.
    pub proof fn lemma_with_x(raw: u32, value: int)
        requires
            0 <= value <= 255,
        ensures
            0 <= Self::with_x_of(raw, value) <= u32::MAX,
            Self::x_of(Self::with_x_of(raw, value) as u32) == value,
            Self::r_of(Self::with_x_of(raw, value) as u32) == Self::r_of(raw),
            Self::g_of(Self::with_x_of(raw, value) as u32) == Self::g_of(raw),
            Self::b_of(Self::with_x_of(raw, value) as u32) == Self::b_of(raw),
    {
        Self::lemma_channels(raw);
        Self::lemma_compose(value, Self::r_of(raw), Self::g_of(raw), Self::b_of(raw));
    }

    /// After the red channel is set to `value`, red reads `value` and
    /// nothing else has changed.
    pub proof fn lemma_with_r(raw: u32, value: int)
        requires
            0 <= value <= 255,
        ensures
            0 <= Self::with_r_of(raw, value) <= u32::MAX,
            Self::r_of(Self::with_r_of(raw, value) as u32) == value,
            Self::x_of(Self::with_r_of(raw, value) as u32) == Self::x_of(raw),
            Self::g_of(Self::with_r_of(raw, value) as u32) == Self::g_of(raw),
            Self::b_of(Self::with_r_of(raw, value) as u32) == Self::b_of(raw),
    {
        Self::lemma_channels(raw);
        Self::lemma_compose(Self::x_of(raw), value, Self::g_of(raw), Self::b_of(raw));
    }

    /// After the green channel is set to `value`, green reads `value` and
    /// nothing else has changed.
    pub proof fn lemma_with_g(raw: u32, value: int)
        requires
            0 <= value <= 255,
        ensures
            0 <= Self::with_g_of(raw, value) <= u32::MAX,
            Self::g_of(Self::with_g_of(raw, value) as u32) == value,
            Self::x_of(Self::with_g_of(raw, value) as u32) == Self::x_of(raw),
            Self::r_of(Self::with_g_of(raw, value) as u32) == Self::r_of(raw),
            Self::b_of(Self::with_g_of(raw, value) as u32) == Self::b_of(raw),
    {
        Self::lemma_channels(raw);
        Self::lemma_compose(Self::x_of(raw), Self::r_of(raw), value, Self::b_of(raw));
    }

    /// After the blue channel is set to `value`, blue reads `value` and
    /// nothing else has changed.
    pub proof fn lemma_with_b(raw: u32, value: int)
        requires
            0 <= value <= 255,
        ensures
            0 <= Self::with_b_of(raw, value) <= u32::MAX,
            Self::b_of(Self::with_b_of(raw, value) as u32) == value,
            Self::x_of(Self::with_b_of(raw, value) as u32) == Self::x_of(raw),
            Self::r_of(Self::with_b_of(raw, value) as u32) == Self::r_of(raw),
            Self::g_of(Self::with_b_of(raw, value) as u32) == Self::g_of(raw),
    {
        Self::lemma_channels(raw);
        Self::lemma_compose(Self::x_of(raw), Self::r_of(raw), Self::g_of(raw), value);
    }

    /// The pixel whose storage is `value`. Every value is a pixel.
    pub fn new_with_raw_value(value: u32) -> (p: XRGB8888)
        ensures
            p == Self::from_raw(value),
            p@ == value,
    {
        XRGB8888 { raw_value: value }
    }

    /// The storage of the pixel.
    pub fn raw_value(&self) -> (value: u32)
        ensures
            value == self@,
    {
        self.raw_value
    }

    /// The padding channel.
    pub fn x(&self) -> (c: u8)
        ensures
            c == Self::x_of(self@),
    {
        let raw = self.raw_value;
        assert((raw >> 24) & 0xff == raw / 0x1000000 % 0x100 && (raw >> 24) & 0xff <= 255) by (bit_vector);
        ((raw >> 24) & 0xff) as u8
    }

    /// The red channel.
    pub fn r(&self) -> (c: u8)
        ensures
            c == Self::r_of(self@),
    {
        let raw = self.raw_value;
        assert((raw >> 16) & 0xff == raw / 0x10000 % 0x100 && (raw >> 16) & 0xff <= 255) by (bit_vector);
        ((raw >> 16) & 0xff) as u8
    }

    /// The green channel.
    pub fn g(&self) -> (c: u8)
        ensures
            c == Self::g_of(self@),
    {
        let raw = self.raw_value;
        assert((raw >> 8) & 0xff == raw / 0x100 % 0x100 && (raw >> 8) & 0xff <= 255) by (bit_vector);
        ((raw >> 8) & 0xff) as u8
    }

    /// The blue channel.
    pub fn b(&self) -> (c: u8)
        ensures
            c == Self::b_of(self@),
    {
        let raw = self.raw_value;
        assert(raw & 0xff == raw % 0x100 && raw & 0xff <= 255) by (bit_vector);
        (raw & 0xff) as u8
    }

    /// A copy of the pixel with the padding channel set to `value`.
    pub fn with_x(&self, value: u8) -> (p: XRGB8888)
        ensures
            p@ == Self::with_x_of(self@, value as int),
    {
        let raw = self.raw_value;
        let v = value as u32;
        assert((raw & !(0xffu32 << 24)) | (v << 24) == raw - (raw / 0x1000000 % 0x100) * 0x1000000 + v * 0x1000000)
            by (bit_vector)
            requires
                v <= 255,
        ;
        XRGB8888 { raw_value: (raw & !(0xffu32 << 24)) | (v << 24) }
    }

    /// A copy of the pixel with the red channel set to `value`.
    pub fn with_r(&self, value: u8) -> (p: XRGB8888)
        ensures
            p@ == Self::with_r_of(self@, value as int),
    {
        let raw = self.raw_value;
        let v = value as u32;
        assert((raw & !(0xffu32 << 16)) | (v << 16) == raw - (raw / 0x10000 % 0x100) * 0x10000 + v * 0x10000)
            by (bit_vector)
            requires
                v <= 255,
        ;
        XRGB8888 { raw_value: (raw & !(0xffu32 << 16)) | (v << 16) }
    }

    /// A copy of the pixel with the green channel set to `value`.
    pub fn with_g(&self, value: u8) -> (p: XRGB8888)
        ensures
            p@ == Self::with_g_of(self@, value as int),
    {
        let raw = self.raw_value;
        let v = value as u32;
        assert((raw & !(0xffu32 << 8)) | (v << 8) == raw - (raw / 0x100 % 0x100) * 0x100 + v * 0x100)
            by (bit_vector)
            requires
                v <= 255,
        ;
        XRGB8888 { raw_value: (raw & !(0xffu32 << 8)) | (v << 8) }
    }

    /// A copy of the pixel with the blue channel set to `value`.
    pub fn with_b(&self, value: u8) -> (p: XRGB8888)
        ensures
            p@ == Self::with_b_of(self@, value as int),
    {
        let raw = self.raw_value;
        let v = value as u32;
        assert((raw & !0xffu32) | v == raw - (raw % 0x100) + v)
            by (bit_vector)
            requires
                v <= 255,
        ;
        XRGB8888 { raw_value: (raw & !0xffu32) | v }
    }

    /// Sets the padding channel to `value`.
    pub fn set_x(&mut self, value: u8)
        ensures
            final(self)@ == Self::with_x_of(old(self)@, value as int),
    {
        *self = self.with_x(value);
    }

    /// Sets the red channel to `value`.
    pub fn set_r(&mut self, value: u8)
        ensures
            final(self)@ == Self::with_r_of(old(self)@, value as int),
    {
        *self = self.with_r(value);
    }

    /// Sets the green channel to `value`.
    pub fn set_g(&mut self, value: u8)
        ensures
            final(self)@ == Self::with_g_of(old(self)@, value as int),
    {
        *self = self.with_g(value);
    }

    /// Sets the blue channel to `value`.
    pub fn set_b(&mut self, value: u8)
        ensures
            final(self)@ == Self::with_b_of(old(self)@, value as int),
    {
        *self = self.with_b(value);
    }
}

impl Default for XRGB8888 {
    /// The pixel whose storage is zero.
    fn default() -> (p: XRGB8888)
        ensures
            p == XRGB8888::from_raw(0),
            p@ == 0,
    {
        XRGB8888 { raw_value: 0 }
    }
}

impl Sealed for XRGB8888 {
}

impl Format for XRGB8888 {
    open spec fn spec_size() -> nat {
        4
    }

    open spec fn spec_raw(&self) -> nat {
        self@ as nat
    }

    proof fn lemma_size() {
    }

    proof fn lemma_raw_fits(&self) {
    }

    fn size() -> (n: usize) {
        4
    }

    fn raw(&self) -> (raw: u32) {
        self.raw_value
    }
}

} // verus!
