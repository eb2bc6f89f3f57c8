use crate::retro::pixel::format::Format;
use std::rc::Rc;
use std::sync::Arc;
use vstd::prelude::*;

verus! {

/// A container that can be read as a run of pixels.
pub trait PixelBuffer: Sized {
    /// The format of the pixels.
    type Pixel: Format;

    /// The pixels that the container holds, in order.
    spec fn spec_pixels(&self) -> Seq<Self::Pixel>;

    /// The pixels as a slice.
    fn as_pixels(&self) -> (pixels: &[Self::Pixel])
        ensures
            pixels@ == self.spec_pixels(),
    ;
}

/// A container whose pixels can also be written in place. The slice it hands
/// out cannot grow or shrink, so the container keeps its length.
pub trait PixelBufferMut: PixelBuffer {
    /// The pixels as a mutable slice. What is written to the slice is written
    /// to the container.
    fn as_pixels_mut(&mut self) -> (pixels: &mut [Self::Pixel])
        ensures
            pixels@ == old(self).spec_pixels(),
            final(pixels)@ == final(self).spec_pixels(),
            final(pixels)@.len() == pixels@.len(),
    ;
}

/// [`Vec::as_mut_slice`]: the elements of `v` as a mutable slice. The slice
/// starts with the elements of `v`, `v` ends with the elements of the slice, and
/// a slice keeps its length.
#[verifier::external_body]
fn vec_as_mut_slice<P>(v: &mut Vec<P>) -> (slice: &mut [P])
    ensures
        slice@ == old(v)@,
        final(slice)@ == final(v)@,
        final(slice)@.len() == slice@.len(),
{
    v.as_mut_slice()
}

/// [`core::ops::DerefMut::deref_mut`] of `Box<[P]>`: the elements of `b` as a
/// mutable slice. The slice starts with the elements of `b`, `b` ends with the
/// elements of the slice, and a slice keeps its length.
#[verifier::external_body]
fn box_as_mut_slice<P>(b: &mut Box<[P]>) -> (slice: &mut [P])
    ensures
        slice@ == old(b)@,
        final(slice)@ == final(b)@,
        final(slice)@.len() == slice@.len(),
{
    core::ops::DerefMut::deref_mut(b)
}

impl<P: Format, const LEN: usize> PixelBuffer for [P; LEN] {
    type Pixel = P;

    open spec fn spec_pixels(&self) -> Seq<P> {
        self@
    }

    fn as_pixels(&self) -> (pixels: &[P]) {
        self.as_slice()
    }
}

impl<P: Format, const LEN: usize> PixelBufferMut for [P; LEN] {
    fn as_pixels_mut(&mut self) -> (pixels: &mut [P]) {
        self
    }
}

impl<'a, P: Format> PixelBuffer for &'a [P] {
    type Pixel = P;

    open spec fn spec_pixels(&self) -> Seq<P> {
        self@
    }

    fn as_pixels(&self) -> (pixels: &[P]) {
        self
    }
}

impl<P: Format> PixelBuffer for Vec<P> {
    type Pixel = P;

    open spec fn spec_pixels(&self) -> Seq<P> {
        self@
    }

    fn as_pixels(&self) -> (pixels: &[P]) {
        self.as_slice()
    }
}

impl<P: Format> PixelBufferMut for Vec<P> {
    fn as_pixels_mut(&mut self) -> (pixels: &mut [P]) {
        vec_as_mut_slice(self)
    }
}

impl<P: Format> PixelBuffer for Box<[P]> {
    type Pixel = P;

    open spec fn spec_pixels(&self) -> Seq<P> {
        self@
    }

    fn as_pixels(&self) -> (pixels: &[P]) {
        &**self
    }
}

impl<P: Format> PixelBufferMut for Box<[P]> {
    fn as_pixels_mut(&mut self) -> (pixels: &mut [P]) {
        box_as_mut_slice(self)
    }
}

impl<P: Format> PixelBuffer for Rc<[P]> {
    type Pixel = P;

    open spec fn spec_pixels(&self) -> Seq<P> {
        self@
    }

    fn as_pixels(&self) -> (pixels: &[P]) {
        &**self
    }
}

impl<P: Format> PixelBuffer for Arc<[P]> {
    type Pixel = P;

    open spec fn spec_pixels(&self) -> Seq<P> {
        self@
    }

    fn as_pixels(&self) -> (pixels: &[P]) {
        &**self
    }
}

} // verus!
