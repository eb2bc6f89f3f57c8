//! Unsigned integers that are narrower than a byte.
//!
//! A colour channel of a 16-bit pixel is five or six bits wide. [`U5`] and
//! [`U6`] carry such a value with the guarantee that it fits.

use vstd::prelude::*;

verus! {

/// An unsigned integer of five bits: a value from 0 to 31.
#[derive(Clone, Copy, Debug, PartialEq, Eq, Hash, Structural)]
pub struct U5 {
    value: u8,
}

impl View for U5 {
    type V = int;

    closed spec fn view(&self) -> int {
        self.value as int
    }
}

impl U5 {
    /// The largest value that five bits hold.
    pub const MAX: u8 = 31;

    /// Whether the value fits in five bits.
    pub open spec fn wf(&self) -> bool {
        0 <= self@ <= 31
    }

    #[verifier::type_invariant]
    spec fn inv(self) -> bool {
        self.wf()
    }

    /// Two values with the same view are the same value.
    pub proof fn lemma_view_injective(a: U5, b: U5)
        ensures
            a@ == b@ <==> a == b,
    {
    }

    /// Wraps `value`, which must fit in five bits.
    pub fn new(value: u8) -> (r: U5)
        requires
            value <= 31,
        ensures
            r@ == value,
            r.wf(),
    {
        U5 { value }
    }

    /// Wraps `value` if it fits in five bits.
    pub fn try_new(value: u8) -> (r: Option<U5>)
        ensures
            value <= 31 <==> r is Some,
            r matches Some(n) ==> n@ == value && n.wf(),
    {
        if value <= 31 {
            Some(U5 { value })
        } else {
            None
        }
    }

    /// The wrapped value.
    pub fn value(self) -> (v: u8)
        ensures
            v == self@,
            v <= 31,
    {
        proof {
            use_type_invariant(&self);
        }
        self.value
    }
}

/// An unsigned integer of six bits: a value from 0 to 63.
#[derive(Clone, Copy, Debug, PartialEq, Eq, Hash, Structural)]
pub struct U6 {
    value: u8,
}

impl View for U6 {
    type V = int;

    closed spec fn view(&self) -> int {
        self.value as int
    }
}

impl U6 {
    /// The largest value that six bits hold.
    pub const MAX: u8 = 63;

    /// Whether the value fits in six bits.
    pub open spec fn wf(&self) -> bool {
        0 <= self@ <= 63
    }

    #[verifier::type_invariant]
    spec fn inv(self) -> bool {
        self.wf()
    }

    /// Two values with the same view are the same value.
    pub proof fn lemma_view_injective(a: U6, b: U6)
        ensures
            a@ == b@ <==> a == b,
    {
    }

    /// Wraps `value`, which must fit in six bits.
    pub fn new(value: u8) -> (r: U6)
        requires
            value <= 63,
        ensures
            r@ == value,
            r.wf(),
    {
        U6 { value }
    }

    /// Wraps `value` if it fits in six bits.
    pub fn try_new(value: u8) -> (r: Option<U6>)
        ensures
            value <= 63 <==> r is Some,
            r matches Some(n) ==> n@ == value && n.wf(),
    {
        if value <= 63 {
            Some(U6 { value })
        } else {
            None
        }
    }

    /// The wrapped value.
    pub fn value(self) -> (v: u8)
        ensures
            v == self@,
            v <= 63,
    {
        proof {
            use_type_invariant(&self);
        }
        self.value
    }
}

} // verus!
