use super::{
    as_bytes, lemma_packed_pitch, lemma_valid_shape, pixels_bytes, valid_shape, ByteOrder,
    FrameBuffer, FrameBufferError, PackedFrameBuffer, PackedFrameBufferMut, PixelBuffer,
    PixelBufferMut,
};
use crate::retro::pixel::format::Format;
use core::ops::{Deref, DerefMut};
use vstd::prelude::*;

verus! {

/// A frame buffer over a container of pixels, with a width that is chosen when
/// the buffer is made. The height follows from the length of the container.
///
/// The container can be read through the buffer and taken back out of it, but
/// not replaced or resized in it: the shape that was checked stays valid.
#[derive(Clone, Debug)]
pub struct SliceFrameBuffer<T> {
    buffer: T,
    width: u16,
}

impl<T: PixelBuffer> SliceFrameBuffer<T> {
    /// The container that the buffer wraps.
    pub closed spec fn spec_buffer(&self) -> T {
        self.buffer
    }

    /// The buffer that wraps `buffer` with rows of `width` pixels.
    pub closed spec fn spec_new(buffer: T, width: u16) -> Self {
        SliceFrameBuffer { buffer, width }
    }

    /// A buffer made of a container and a width holds that container and has
    /// that width: unwrapping it gives the container back unchanged.
    pub proof fn lemma_into_inner_of_new(buffer: T, width: u16)
        ensures
            Self::spec_new(buffer, width).spec_buffer() == buffer,
            Self::spec_new(buffer, width).spec_width() == width,
    {
    }

    /// Returns a new frame buffer with the given width; the height follows
    /// from the length of the container. Fails if the width is zero, if the
    /// length is not a multiple of the width, or if the height does not fit
    /// in 16 bits.
    pub fn with_width(buffer: T, width: u16) -> (result: Result<Self, FrameBufferError>)
        ensures
            result is Ok <==> valid_shape(buffer.spec_pixels().len(), width),
            result matches Ok(fb) ==> fb == Self::spec_new(buffer, width) && fb.wf()
                && fb.spec_buffer() == buffer && fb.spec_width() == width,
    {
        if width == 0 {
            return Err(FrameBufferError(()));
        }
        let len = buffer.as_pixels().len();
        let height = len / width as usize;
        let remainder = len % width as usize;
        if remainder != 0 || height > 65535 {
            return Err(FrameBufferError(()));
        }
        Ok(SliceFrameBuffer { buffer, width })
    }

    /// Returns a shared reference to the container.
    pub fn buffer(&self) -> (buffer: &T)
        ensures
            *buffer == self.spec_buffer(),
    {
        &self.buffer
    }

    /// Consumes the frame buffer and returns the container.
    pub fn into_inner(self) -> (buffer: T)
        ensures
            buffer == self.spec_buffer(),
    {
        self.buffer
    }
}

impl<T: PixelBuffer> FrameBuffer for SliceFrameBuffer<T> {
    type Pixel = T::Pixel;

    open spec fn wf(&self) -> bool {
        valid_shape(self.spec_buffer().spec_pixels().len(), self.spec_width())
    }

    open spec fn spec_data(&self, order: ByteOrder) -> Seq<u8> {
        pixels_bytes(self.spec_buffer().spec_pixels(), order)
    }

    closed spec fn spec_width(&self) -> u16 {
        self.width
    }

    open spec fn spec_height(&self) -> u16 {
        (self.spec_buffer().spec_pixels().len() / self.spec_width() as nat) as u16
    }

    open spec fn spec_pitch(&self) -> usize {
        (self.spec_width() * T::Pixel::spec_size()) as usize
    }

    proof fn lemma_shape(&self, order: ByteOrder) {
        lemma_packed_pitch::<T::Pixel>(self.spec_buffer().spec_pixels().len(), self.spec_width());
    }

    fn data_in(&self, order: ByteOrder) -> (bytes: Vec<u8>) {
        proof {
            self.lemma_shape(order);
        }
        as_bytes(self.buffer.as_pixels(), order)
    }

    fn width(&self) -> (width: u16) {
        self.width
    }

    fn height(&self) -> (height: u16) {
        (self.buffer.as_pixels().len() / self.width as usize) as u16
    }

    fn pitch(&self) -> (pitch: usize) {
        self.width as usize * T::Pixel::size()
    }
}

impl<T: PixelBuffer> PackedFrameBuffer for SliceFrameBuffer<T> {
    open spec fn spec_pixels(&self) -> Seq<T::Pixel> {
        self.spec_buffer().spec_pixels()
    }

    proof fn lemma_packed(&self, order: ByteOrder) {
        lemma_packed_pitch::<T::Pixel>(self.spec_buffer().spec_pixels().len(), self.spec_width());
        lemma_valid_shape(self.spec_buffer().spec_pixels().len(), self.spec_width());
    }

    fn pixels(&self) -> (pixels: &[T::Pixel]) {
        proof {
            self.lemma_packed(ByteOrder::LittleEndian);
        }
        self.buffer.as_pixels()
    }
}

impl<T: PixelBufferMut> PackedFrameBufferMut for SliceFrameBuffer<T> {
    fn pixels_mut(&mut self) -> (pixels: &mut [T::Pixel]) {
        proof {
            self.lemma_packed(ByteOrder::LittleEndian);
        }
        self.buffer.as_pixels_mut()
    }
}

impl<T: PixelBuffer> Deref for SliceFrameBuffer<T> {
    type Target = [T::Pixel];

    /// The pixels of the buffer as a slice.
    fn deref(&self) -> (pixels: &[T::Pixel])
        ensures
            pixels@ == self.spec_buffer().spec_pixels(),
    {
        self.buffer.as_pixels()
    }
}

impl<T: PixelBufferMut> DerefMut for SliceFrameBuffer<T> {
    /// The pixels of the buffer as a mutable slice. The container keeps its
    /// length, so the shape of the buffer stays valid.
    fn deref_mut(&mut self) -> (pixels: &mut [T::Pixel])
        ensures
            pixels@ == old(self).spec_buffer().spec_pixels(),
            final(pixels)@ == final(self).spec_buffer().spec_pixels(),
            final(pixels)@.len() == pixels@.len(),
            final(self).spec_width() == old(self).spec_width(),
            old(self).wf() ==> final(self).wf(),
    {
        self.buffer.as_pixels_mut()
    }
}

impl<T: PixelBuffer> AsRef<[T::Pixel]> for SliceFrameBuffer<T> {
    /// The pixels of the buffer as a slice.
    fn as_ref(&self) -> (pixels: &[T::Pixel])
        ensures
            pixels@ == self.spec_buffer().spec_pixels(),
    {
        self.buffer.as_pixels()
    }
}

impl<T: PixelBufferMut> AsMut<[T::Pixel]> for SliceFrameBuffer<T> {
    /// The pixels of the buffer as a mutable slice. The container keeps its
    /// length, so the shape of the buffer stays valid.
    fn as_mut(&mut self) -> (pixels: &mut [T::Pixel])
        ensures
            pixels@ == old(self).spec_buffer().spec_pixels(),
            final(pixels)@ == final(self).spec_buffer().spec_pixels(),
            final(pixels)@.len() == pixels@.len(),
            final(self).spec_width() == old(self).spec_width(),
            old(self).wf() ==> final(self).wf(),
    {
        self.buffer.as_pixels_mut()
    }
}

} // verus!
