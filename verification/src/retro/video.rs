//! Frame buffers: a run of pixels with a width, a height and a pitch, which can
//! be handed to the frontend as bytes.

use crate::retro::pixel::format::Format;
use vstd::prelude::*;

mod array;
mod bytes;
mod err;
mod packed;
mod pixel_buffer;
mod rows;

pub use array::ArrayFrameBuffer;
pub use bytes::{
    as_bytes, byte_of, lemma_bytes_compose, lemma_pixel_bytes_determine_raw,
    lemma_pixels_bytes_at, pixel_bytes, pixels_bytes, ByteOrder,
};
pub use err::FrameBufferError;
pub use packed::SliceFrameBuffer;
pub use pixel_buffer::{PixelBuffer, PixelBufferMut};
pub use rows::{lemma_flatten_uniform, lemma_rows_concat, lemma_rows_prefix, row_of, rows_of};

verus! {

/// A video frame that can be handed to the frontend: a buffer of bytes, the
/// width and the height of the frame in pixels, and the pitch of the buffer,
/// which is the number of bytes from the start of one row to the start of
/// the next.
///
/// An implementation says with `wf` when a value has a valid shape, and
/// proves of every such value that
/// * the buffer holds `pitch * height` bytes, and
/// * a row of `width` pixels fits in `pitch` bytes.
///
/// An implementation gives no mutable access to a container that can be
/// resized: pixels are written through a slice, which keeps its length.
pub trait FrameBuffer {
    /// The pixel format of the buffer.
    type Pixel: Format;

    /// Whether the shape of the buffer is valid.
    spec fn wf(&self) -> bool;

    /// The bytes of the buffer, where each pixel has its bytes in the given
    /// order.
    spec fn spec_data(&self, order: ByteOrder) -> Seq<u8>;

    /// The width of the frame, in pixels.
    spec fn spec_width(&self) -> u16;

    /// The height of the frame, in pixels.
    spec fn spec_height(&self) -> u16;

    /// The pitch of the buffer, in bytes.
    spec fn spec_pitch(&self) -> usize;

    /// The buffer holds `pitch * height` bytes, and a row of pixels fits in
    /// the pitch.
    proof fn lemma_shape(&self, order: ByteOrder)
        requires
            self.wf(),
        ensures
            self.spec_data(order).len() == self.spec_pitch() * self.spec_height(),
            self.spec_width() * Self::Pixel::spec_size() <= self.spec_pitch(),
    ;

    /// The bytes of the buffer, where each pixel has its bytes in the given
    /// order.
    fn data_in(&self, order: ByteOrder) -> (bytes: Vec<u8>)
        requires
            self.wf(),
        ensures
            bytes@ == self.spec_data(order),
            bytes@.len() == self.spec_pitch() * self.spec_height(),
    ;

    /// The bytes of the buffer as this machine keeps them in memory: each
    /// pixel has its bytes in the machine's own order.
    fn data(&self) -> (bytes: Vec<u8>)
        requires
            self.wf(),
        ensures
            bytes@ == self.spec_data(ByteOrder::LittleEndian) || bytes@ == self.spec_data(
                ByteOrder::BigEndian,
            ),
            bytes@.len() == self.spec_pitch() * self.spec_height(),
    {
        self.data_in(ByteOrder::native())
    }

    /// The width of the frame, in pixels.
    fn width(&self) -> (width: u16)
        requires
            self.wf(),
        ensures
            width == self.spec_width(),
    ;

    /// The height of the frame, in pixels.
    fn height(&self) -> (height: u16)
        requires
            self.wf(),
        ensures
            height == self.spec_height(),
    ;

    /// The pitch of the buffer, in bytes.
    fn pitch(&self) -> (pitch: usize)
        requires
            self.wf(),
        ensures
            pitch == self.spec_pitch(),
            self.spec_width() * Self::Pixel::spec_size() <= pitch,
    ;
}

/// Whether `len` pixels make a frame of rows of `width` pixels: the width is not
/// zero, the rows come out even, and their number fits in 16 bits.
pub open spec fn valid_shape(len: nat, width: u16) -> bool {
    &&& width > 0
    &&& len % (width as nat) == 0
    &&& len / (width as nat) <= u16::MAX
}

/// A frame of a valid shape holds `width * height` pixels, where the height is
/// the number of pixels divided by the width.
pub proof fn lemma_valid_shape(len: nat, width: u16)
    requires
        valid_shape(len, width),
    ensures
        (len / (width as nat)) * width == len,
        width * (len / (width as nat)) == len,
{
    vstd::arithmetic::div_mod::lemma_fundamental_div_mod(len as int, width as int);
    assert((len / (width as nat)) * width == width * (len / (width as nat))) by (nonlinear_arith);
}

/// The pitch of a packed frame of a valid shape: the bytes of a row are a
/// number that fits in `usize`, and `height` rows of them are the bytes of all
/// the pixels.
pub proof fn lemma_packed_pitch<P: Format>(len: nat, width: u16)
    requires
        valid_shape(len, width),
    ensures
        width * P::spec_size() <= usize::MAX,
        (width * P::spec_size()) * (len / (width as nat)) == len * P::spec_size(),
{
    P::lemma_size();
    lemma_valid_shape(len, width);
    let height = len / (width as nat);
    let size = P::spec_size();
    assert(width * size <= 0xffff * 4) by (nonlinear_arith)
        requires
            width <= 0xffff,
            size <= 4,
    ;
    assert((width * size) * height == len * size) by (nonlinear_arith)
        requires
            width * height == len,
    ;
}

/// A [`FrameBuffer`] without padding: its pitch is the width of a row in
/// bytes, and its bytes are those of its pixels.
pub trait PackedFrameBuffer: FrameBuffer {
    /// The pixels of the frame, row after row.
    spec fn spec_pixels(&self) -> Seq<Self::Pixel>;

    /// The pitch is the width of a row in bytes, the frame holds
    /// `width * height` pixels, and the bytes of the buffer are the bytes
    /// of these pixels.
    proof fn lemma_packed(&self, order: ByteOrder)
        requires
            self.wf(),
        ensures
            self.spec_pitch() == self.spec_width() * Self::Pixel::spec_size(),
            self.spec_pixels().len() == self.spec_width() * self.spec_height(),
            self.spec_data(order) == pixels_bytes(self.spec_pixels(), order),
    ;

    /// A slice of all the pixels of the frame.
    fn pixels(&self) -> (pixels: &[Self::Pixel])
        requires
            self.wf(),
        ensures
            pixels@ == self.spec_pixels(),
            pixels@.len() == self.spec_width() * self.spec_height(),
    ;

    /// The rows of the frame, from the top. There are `height` of them, and
    /// each is `width` pixels long.
    fn rows(&self) -> (rows: Vec<&[Self::Pixel]>)
        requires
            self.wf(),
        ensures
            rows@.len() == self.spec_height(),
            forall|i: int|
                #![trigger rows@[i]@]
                0 <= i < rows@.len() ==> rows@[i]@ == row_of(
                    self.spec_pixels(),
                    self.spec_width() as int,
                    i,
                ) && rows@[i]@.len() == self.spec_width(),
    {
        let pixels = self.pixels();
        let width = self.width() as usize;
        let height = self.height() as usize;
        proof {
            self.lemma_packed(ByteOrder::LittleEndian);
        }
        let len = pixels.len();
        let mut rows: Vec<&[Self::Pixel]> = Vec::new();
        let mut i: usize = 0;
        while i < height
            invariant
                pixels@ == self.spec_pixels(),
                width == self.spec_width(),
                height == self.spec_height(),
                len == width * height,
                len == pixels@.len(),
                i <= height,
                rows@.len() == i,
                forall|j: int|
                    0 <= j < i ==> rows@[j]@ == row_of(pixels@, width as int, j) && rows@[j]@.len()
                        == width,
            decreases height - i,
        {
            assert(0 <= i * width && i * width + width <= width * height) by (nonlinear_arith)
                requires
                    0 <= i < height,
                    0 <= width,
            ;
            let start = i * width;
            let row = vstd::slice::slice_subrange(pixels, start, start + width);
            rows.push(row);
            i += 1;
        }
        rows
    }
}

/// A packed [`FrameBuffer`] whose pixels can be written.
pub trait PackedFrameBufferMut: PackedFrameBuffer {
    /// A mutable slice of all the pixels of the frame. What is written to
    /// the slice is written to the frame; the shape of the frame stays.
    fn pixels_mut(&mut self) -> (pixels: &mut [Self::Pixel])
        requires
            old(self).wf(),
        ensures
            pixels@ == old(self).spec_pixels(),
            pixels@.len() == old(self).spec_width() * old(self).spec_height(),
            final(pixels)@ == final(self).spec_pixels(),
            final(pixels)@.len() == pixels@.len(),
            final(self).wf(),
            final(self).spec_width() == old(self).spec_width(),
            final(self).spec_height() == old(self).spec_height(),
            final(self).spec_pitch() == old(self).spec_pitch(),
    ;

    /// The rows of the frame as mutable slices, from the top. There are
    /// `height` of them, and each starts out `width` pixels long. What is
    /// written to the rows is written to the frame: in the end the frame holds
    /// the rows one after the other.
    fn rows_mut(&mut self) -> (rows: Vec<&mut [Self::Pixel]>)
        requires
            old(self).wf(),
        ensures
            rows@.len() == old(self).spec_height(),
            forall|i: int|
                #![trigger rows@[i]@]
                0 <= i < rows@.len() ==> rows@[i]@ == row_of(
                    old(self).spec_pixels(),
                    old(self).spec_width() as int,
                    i,
                ) && rows@[i]@.len() == old(self).spec_width(),
            final(self).spec_pixels() == Seq::new(rows@.len(), |i: int| final(rows@[i])@).flatten(),
            final(self).wf(),
            final(self).spec_width() == old(self).spec_width(),
            final(self).spec_height() == old(self).spec_height(),
            final(self).spec_pitch() == old(self).spec_pitch(),
    {
        let width = self.width() as usize;
        let height = self.height() as usize;
        proof {
            self.lemma_packed(ByteOrder::LittleEndian);
        }
        let ghost before = self.spec_pixels();
        let pixels = self.pixels_mut();
        let ghost after = final(pixels)@;
        let len = pixels.len();
        let mut rest: &mut [Self::Pixel] = pixels;
        let mut rows: Vec<&mut [Self::Pixel]> = Vec::new();
        let mut i: usize = 0;
        while i < height
            invariant
                len == width * height,
                len == before.len(),
                i <= height,
                rows@.len() == i,
                0 <= i * width <= before.len(),
                rest@ == before.subrange(i * width, before.len() as int),
                forall|j: int|
                    0 <= j < i ==> rows@[j]@ == row_of(before, width as int, j) && rows@[j]@.len()
                        == width,
                after == Seq::new(i as nat, |j: int| final(rows@[j])@).flatten() + final(rest)@,
            decreases height - i,
        {
            assert(0 <= i * width && i * width + width <= width * height) by (nonlinear_arith)
                requires
                    0 <= i < height,
                    0 <= width,
            ;
            assert((i + 1) * width == i * width + width) by (nonlinear_arith);
            let ghost done = Seq::new(i as nat, |j: int| final(rows@[j])@);
            let (row, tail) = rest.split_at_mut(width);
            let ghost row_final = final(row)@;
            rows.push(row);
            rest = tail;
            i += 1;
            proof {
                assert(Seq::new(i as nat, |j: int| final(rows@[j])@) =~= done.push(row_final));
                done.lemma_flatten_push(row_final);
            }
        }
        proof {
            assert(i * width == width * height) by (nonlinear_arith)
                requires
                    i == height,
            ;
            assert(rest@.len() == 0);
            assert(final(rest)@ =~= Seq::<Self::Pixel>::empty());
            assert(Seq::new(rows@.len(), |i: int| final(rows@[i])@) =~= Seq::new(
                i as nat,
                |j: int| final(rows@[j])@,
            ));
        }
        rows
    }
}

} // verus!
