use vstd::prelude::*;

verus! {

/// Keeps the set of pixel formats closed.
pub trait Sealed {
}

} // verus!
