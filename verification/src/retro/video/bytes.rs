//! The bytes of pixels, as they are handed to the frontend.

use crate::retro::pixel::format::Format;
use vstd::prelude::*;

verus! {

/// The order in which the bytes of a pixel stand in memory.
#[derive(Clone, Copy, Debug, PartialEq, Eq, Hash, Structural)]
pub enum ByteOrder {
    /// The least significant byte comes first.
    LittleEndian,
    /// The most significant byte comes first.
    BigEndian,
}

/// Byte `k` of `raw`, where byte 0 is the least significant.
pub open spec fn byte_of(raw: nat, k: int) -> u8 {
    if k == 0 {
        (raw % 0x100) as u8
    } else if k == 1 {
        (raw / 0x100 % 0x100) as u8
    } else if k == 2 {
        (raw / 0x1_0000 % 0x100) as u8
    } else {
        (raw / 0x100_0000 % 0x100) as u8
    }
}

/// The bytes of one pixel in the given order.
pub open spec fn pixel_bytes<P: Format>(pixel: P, order: ByteOrder) -> Seq<u8> {
    Seq::new(
        P::spec_size(),
        |k: int|
            match order {
                ByteOrder::LittleEndian => byte_of(pixel.spec_raw(), k),
                ByteOrder::BigEndian => byte_of(pixel.spec_raw(), P::spec_size() - 1 - k),
            },
    )
}

/// The bytes of a run of pixels: the pixels follow each other without gaps,
/// each with its bytes in the given order.
pub open spec fn pixels_bytes<P: Format>(pixels: Seq<P>, order: ByteOrder) -> Seq<u8> {
    Seq::new(
        pixels.len() * P::spec_size(),
        |j: int| pixel_bytes(pixels[j / (P::spec_size() as int)], order)[j % (P::spec_size() as int)],
    )
}

/// A number below 2^16 is made up of its two low bytes, and a number below
/// 2^32 of its four.
pub proof fn lemma_bytes_compose(raw: nat)
    ensures
        raw < 0x1_0000 ==> raw == byte_of(raw, 0) + byte_of(raw, 1) * 0x100,
        raw < 0x1_0000_0000 ==> raw == byte_of(raw, 0) + byte_of(raw, 1) * 0x100 + byte_of(raw, 2)
            * 0x1_0000 + byte_of(raw, 3) * 0x100_0000,
{
    if raw < 0x1_0000_0000 {
        let r = raw as int;
        assert(r == (r / 0x100) * 0x100 + r % 0x100);
        assert(r / 0x100 == (r / 0x1_0000) * 0x100 + r / 0x100 % 0x100);
        assert(r / 0x1_0000 == (r / 0x100_0000) * 0x100 + r / 0x1_0000 % 0x100);
        assert(r / 0x100_0000 < 0x100);
    }
}

/// The bytes of a pixel say what its storage is: two pixels with the same
/// bytes in the same order have the same storage.
pub proof fn lemma_pixel_bytes_determine_raw<P: Format>(a: P, b: P, order: ByteOrder)
    requires
        pixel_bytes(a, order) == pixel_bytes(b, order),
    ensures
        a.spec_raw() == b.spec_raw(),
{
    P::lemma_size();
    a.lemma_raw_fits();
    b.lemma_raw_fits();
    lemma_bytes_compose(a.spec_raw());
    lemma_bytes_compose(b.spec_raw());
    let x = pixel_bytes(a, order);
    let y = pixel_bytes(b, order);
    assert(x[0] == y[0]);
    assert(x[1] == y[1]);
    if P::spec_size() == 4 {
        assert(x[2] == y[2]);
        assert(x[3] == y[3]);
    }
}

/// Every pixel of a run takes `size` bytes, and the bytes of pixel `i` stand
/// at the places from `i * size` on.
pub proof fn lemma_pixels_bytes_at<P: Format>(pixels: Seq<P>, order: ByteOrder, i: int, k: int)
    requires
        0 <= i < pixels.len(),
        0 <= k < P::spec_size(),
    ensures
        pixels_bytes(pixels, order).len() == pixels.len() * P::spec_size(),
        0 <= i * P::spec_size() + k < pixels_bytes(pixels, order).len(),
        pixels_bytes(pixels, order)[i * P::spec_size() + k] == pixel_bytes(pixels[i], order)[k],
{
    let size = P::spec_size() as int;
    let j = i * size + k;
    assert(j / size == i && j % size == k) by (nonlinear_arith)
        requires
            j == i * size + k,
            0 <= k < size,
            i >= 0,
    ;
    assert(0 <= j < pixels.len() * size) by (nonlinear_arith)
        requires
            j == i * size + k,
            0 <= k < size,
            0 <= i < pixels.len(),
    ;
}

/// [`u16::to_ne_bytes`]: the two bytes of `x` in the order in which this
/// machine keeps them in memory. Which of the two orders that is depends on
/// the machine, so the contract admits both.
#[verifier::external_body]
fn u16_to_ne_bytes(x: u16) -> (bytes: [u8; 2])
    ensures
        bytes@ == seq![byte_of(x as nat, 0), byte_of(x as nat, 1)] || bytes@ == seq![
            byte_of(x as nat, 1),
            byte_of(x as nat, 0),
        ],
{
    x.to_ne_bytes()
}

impl ByteOrder {
    /// The byte order that a probe reveals: `probe` holds the bytes of the
    /// number 1 as a machine keeps them.
    pub fn of_probe(probe: [u8; 2]) -> (order: ByteOrder)
        ensures
            order == if probe@[0] == 1 {
                ByteOrder::LittleEndian
            } else {
                ByteOrder::BigEndian
            },
    {
        if probe[0] == 1 {
            ByteOrder::LittleEndian
        } else {
            ByteOrder::BigEndian
        }
    }

    /// The byte order of this machine.
    pub(crate) fn native() -> (order: ByteOrder) {
        ByteOrder::of_probe(u16_to_ne_bytes(1))
    }
}

/// The bytes of the pixels of `slice`, each pixel in the given byte order.
pub fn as_bytes<P: Format>(slice: &[P], order: ByteOrder) -> (bytes: Vec<u8>)
    ensures
        bytes@ == pixels_bytes(slice@, order),
{
    let size = P::size();
    let len = slice.len();
    let mut bytes: Vec<u8> = Vec::new();
    let mut i: usize = 0;
    while i < len
        invariant
            size == P::spec_size(),
            size == 2 || size == 4,
            len == slice@.len(),
            i <= len,
            bytes@.len() == i * size,
            forall|j: int| 0 <= j < bytes@.len() ==> bytes@[j] == pixels_bytes(slice@, order)[j],
        decreases len - i,
    {
        let raw = slice[i].raw();
        let mut k: usize = 0;
        while k < size
            invariant
                size == P::spec_size(),
                size == 2 || size == 4,
                len == slice@.len(),
                i < len,
                k <= size,
                raw == slice@[i as int].spec_raw(),
                bytes@.len() == i * size + k,
                forall|j: int| 0 <= j < bytes@.len() ==> bytes@[j] == pixels_bytes(slice@, order)[j],
            decreases size - k,
        {
            let idx = match order {
                ByteOrder::LittleEndian => k,
                ByteOrder::BigEndian => size - 1 - k,
            };
            let byte = byte_at(raw, idx);
            proof {
                lemma_pixels_bytes_at(slice@, order, i as int, k as int);
            }
            bytes.push(byte);
            k += 1;
        }
        i += 1;
        assert(i * size == (i - 1) * size + size) by (nonlinear_arith);
    }
    assert(bytes@ =~= pixels_bytes(slice@, order));
    bytes
}

/// Byte `k` of `raw`, where byte 0 is the least significant.
fn byte_at(raw: u32, k: usize) -> (byte: u8)
    requires
        k < 4,
    ensures
        byte == byte_of(raw as nat, k as int),
{
    if k == 0 {
        assert(raw & 0xff == raw % 0x100) by (bit_vector);
        (raw & 0xff) as u8
    } else if k == 1 {
        assert((raw >> 8) & 0xff == raw / 0x100 % 0x100) by (bit_vector);
        ((raw >> 8) & 0xff) as u8
    } else if k == 2 {
        assert((raw >> 16) & 0xff == raw / 0x1_0000 % 0x100) by (bit_vector);
        ((raw >> 16) & 0xff) as u8
    } else {
        assert((raw >> 24) & 0xff == raw / 0x100_0000 % 0x100) by (bit_vector);
        ((raw >> 24) & 0xff) as u8
    }
}

} // verus!
