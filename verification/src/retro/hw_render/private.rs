use vstd::prelude::*;

verus! {

/// Keeps the set of rendering modes closed.
pub trait Sealed {
}

} // verus!
