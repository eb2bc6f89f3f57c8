use super::{
    as_bytes, lemma_packed_pitch, lemma_valid_shape, pixels_bytes, valid_shape, ByteOrder,
    FrameBuffer, PackedFrameBuffer, PackedFrameBufferMut,
};
use crate::retro::pixel::format::Format;
use core::ops::{Deref, DerefMut};
use vstd::prelude::*;
use vstd::std_specs::convert::IntoSpecImpl;

verus! {

/// A frame buffer whose dimensions are part of its type: `LEN` pixels in rows
/// of `W` pixels. The shape must be valid, which is checked where a buffer is
/// made and costs nothing at run time.
#[derive(Clone, Debug)]
pub struct ArrayFrameBuffer<P, const LEN: usize, const W: u16>([P; LEN]);

impl<P, const LEN: usize, const W: u16> View for ArrayFrameBuffer<P, LEN, W> {
    type V = Seq<P>;

    closed spec fn view(&self) -> Seq<P> {
        self.0@
    }
}

impl<P, const LEN: usize, const W: u16> ArrayFrameBuffer<P, LEN, W> {
    /// The buffer that wraps `pixels`.
    pub closed spec fn spec_new(pixels: [P; LEN]) -> Self {
        ArrayFrameBuffer(pixels)
    }

    /// The array that the buffer wraps.
    pub closed spec fn spec_into_inner(self) -> [P; LEN] {
        self.0
    }
}

impl<P: Format, const LEN: usize, const W: u16> ArrayFrameBuffer<P, LEN, W> {
    /// Whether `LEN` pixels make a frame of rows of `W` pixels.
    pub open spec fn valid_shape() -> bool {
        valid_shape(LEN as nat, W)
    }

    /// The height of every buffer of this type.
    pub open spec fn spec_height_of_type() -> u16 {
        (LEN as nat / W as nat) as u16
    }

    /// A buffer holds `LEN` pixels, those of the array it wraps.
    pub proof fn lemma_view(self)
        ensures
            self@ == self.spec_into_inner()@,
            self@.len() == LEN,
    {
    }

    /// Unwrapping a buffer that was just made gives the array it was made
    /// of, and wrapping what a buffer gave makes that buffer again.
    pub proof fn lemma_into_inner_of_new(pixels: [P; LEN], fb: Self)
        ensures
            Self::spec_new(pixels).spec_into_inner() == pixels,
            Self::spec_new(fb.spec_into_inner()) == fb,
    {
    }

    /// Whether `LEN` pixels make a frame of rows of `W` pixels, computed.
    pub fn shape_is_valid() -> (valid: bool)
        ensures
            valid == Self::valid_shape(),
    {
        W != 0 && LEN % (W as usize) == 0 && LEN / (W as usize) <= 65535
    }

    /// The height of every buffer of this type.
    pub fn height_of_type() -> (height: u16)
        requires
            Self::valid_shape(),
        ensures
            height == Self::spec_height_of_type(),
    {
        (LEN / (W as usize)) as u16
    }

    /// Creates a frame buffer from an array of pixels. The shape of the type
    /// must be valid.
    pub fn new(pixels: [P; LEN]) -> (fb: Self)
        requires
            Self::valid_shape(),
        ensures
            fb == Self::spec_new(pixels),
            fb@ == pixels@,
            fb.wf(),
    {
        ArrayFrameBuffer(pixels)
    }

    /// Consumes the frame buffer and returns the array of pixels it wraps.
    pub fn into_inner(self) -> (pixels: [P; LEN])
        ensures
            pixels == self.spec_into_inner(),
            pixels@ == self@,
    {
        self.0
    }
}

impl<P: Format, const LEN: usize, const W: u16> FrameBuffer for ArrayFrameBuffer<P, LEN, W> {
    type Pixel = P;

    open spec fn wf(&self) -> bool {
        Self::valid_shape()
    }

    open spec fn spec_data(&self, order: ByteOrder) -> Seq<u8> {
        pixels_bytes(self@, order)
    }

    open spec fn spec_width(&self) -> u16 {
        W
    }

    open spec fn spec_height(&self) -> u16 {
        Self::spec_height_of_type()
    }

    open spec fn spec_pitch(&self) -> usize {
        (W * P::spec_size()) as usize
    }

    proof fn lemma_shape(&self, order: ByteOrder) {
        lemma_packed_pitch::<P>(LEN as nat, W);
        assert(self.spec_width() == W);
    }

    fn data_in(&self, order: ByteOrder) -> (bytes: Vec<u8>) {
        proof {
            self.lemma_shape(order);
        }
        as_bytes(self.0.as_slice(), order)
    }

    fn width(&self) -> (width: u16) {
        W
    }

    fn height(&self) -> (height: u16) {
        Self::height_of_type()
    }

    fn pitch(&self) -> (pitch: usize) {
        W as usize * P::size()
    }
}

impl<P: Format, const LEN: usize, const W: u16> PackedFrameBuffer for ArrayFrameBuffer<P, LEN, W> {
    open spec fn spec_pixels(&self) -> Seq<P> {
        self@
    }

    proof fn lemma_packed(&self, order: ByteOrder) {
        lemma_packed_pitch::<P>(LEN as nat, W);
        lemma_valid_shape(LEN as nat, W);
    }

    fn pixels(&self) -> (pixels: &[P]) {
        proof {
            self.lemma_packed(ByteOrder::LittleEndian);
        }
        self.0.as_slice()
    }
}

impl<P: Format, const LEN: usize, const W: u16> PackedFrameBufferMut for ArrayFrameBuffer<P, LEN, W> {
    fn pixels_mut(&mut self) -> (pixels: &mut [P]) {
        proof {
            self.lemma_packed(ByteOrder::LittleEndian);
        }
        &mut self.0
    }
}

impl<P, const LEN: usize, const W: u16> Default for ArrayFrameBuffer<P, LEN, W> where
    P: Format + Copy + Default,
{
    /// The buffer whose pixels all have the default value of the format.
    fn default() -> (fb: Self)
        ensures
            forall|i: int| 0 <= i < LEN ==> call_ensures(P::default, (), #[trigger] fb@[i]),
    {
        let pixel = P::default();
        ArrayFrameBuffer([pixel; LEN])
    }
}

impl<P, const LEN: usize, const W: u16> Deref for ArrayFrameBuffer<P, LEN, W> {
    type Target = [P; LEN];

    /// The array of pixels that the buffer wraps.
    fn deref(&self) -> (pixels: &[P; LEN])
        ensures
            *pixels == self.spec_into_inner(),
            pixels@ == self@,
    {
        &self.0
    }
}

impl<P, const LEN: usize, const W: u16> DerefMut for ArrayFrameBuffer<P, LEN, W> {
    /// The array of pixels that the buffer wraps, to be written in place.
    fn deref_mut(&mut self) -> (pixels: &mut [P; LEN])
        ensures
            pixels@ == old(self)@,
            final(pixels)@ == final(self)@,
    {
        &mut self.0
    }
}

impl<P, const LEN: usize, const W: u16> AsRef<[P]> for ArrayFrameBuffer<P, LEN, W> {
    /// The pixels of the buffer as a slice.
    fn as_ref(&self) -> (pixels: &[P])
        ensures
            pixels@ == self@,
    {
        self.0.as_slice()
    }
}

impl<P, const LEN: usize, const W: u16> AsMut<[P]> for ArrayFrameBuffer<P, LEN, W> {
    /// The pixels of the buffer as a mutable slice.
    fn as_mut(&mut self) -> (pixels: &mut [P])
        ensures
            pixels@ == old(self)@,
            final(pixels)@ == final(self)@,
            final(pixels)@.len() == pixels@.len(),
    {
        &mut self.0
    }
}

impl<P, const LEN: usize, const W: u16> IntoSpecImpl<[P; LEN]> for ArrayFrameBuffer<P, LEN, W> {
    open spec fn obeys_into_spec() -> bool {
        true
    }

    open spec fn into_spec(self) -> [P; LEN] {
        self.spec_into_inner()
    }
}

impl<P, const LEN: usize, const W: u16> Into<[P; LEN]> for ArrayFrameBuffer<P, LEN, W> {
    /// The array of pixels that the buffer wraps.
    fn into(self) -> [P; LEN] {
        self.0
    }
}

} // verus!
