//! The pixel formats that a core can hand to the frontend.
//!
//! Each format is a fixed-width integer whose bit ranges are the colour
//! channels. A channel is described here as a field of the integer: the field
//! that starts at the bit of weight `weight` and holds `span` values is
//! `raw / weight % span`.

use vstd::prelude::*;
use core::marker::PhantomData;

mod private;
mod orgb1555;
mod rgb565;
mod xrgb8888;

pub use orgb1555::ORGB1555;
pub use rgb565::RGB565;
pub use xrgb8888::XRGB8888;

verus! {

/// Proof that the frontend accepted the pixel format `P`.
#[derive(Debug, PartialEq, Eq, Hash)]
pub struct ActiveFormat<P>(pub(crate) PhantomData<P>);

/// A pixel format. The set is closed: the three formats of this module are the
/// only implementations.
pub trait Format: private::Sealed {
    /// The number of bytes that one pixel occupies.
    spec fn spec_size() -> nat;

    /// The storage of the pixel as a number.
    spec fn spec_raw(&self) -> nat;

    /// A pixel is two or four bytes wide.
    proof fn lemma_size()
        ensures
            Self::spec_size() == 2 || Self::spec_size() == 4,
    ;

    /// The storage of a pixel fits in its bytes.
    proof fn lemma_raw_fits(&self)
        ensures
            Self::spec_size() == 2 ==> self.spec_raw() < 0x1_0000,
            Self::spec_size() == 4 ==> self.spec_raw() < 0x1_0000_0000,
    ;

    /// The number of bytes that one pixel occupies.
    fn size() -> (n: usize)
        ensures
            n == Self::spec_size(),
            n == 2 || n == 4,
    ;

    /// The storage of the pixel, widened to 32 bits.
    fn raw(&self) -> (raw: u32)
        ensures
            raw == self.spec_raw(),
    ;
}

/// The field of `raw` that starts at the bit of weight `weight` and holds
/// `span` values.
pub open spec fn field(raw: int, weight: int, span: int) -> int {
    raw / weight % span
}

/// `raw` with that field replaced by `value`, every other bit as it was.
pub open spec fn with_field(raw: int, weight: int, span: int, value: int) -> int {
    raw - field(raw, weight, span) * weight + value * weight
}

} // verus!
