use vstd::prelude::*;

verus! {

/// The container's length, the width and the height that follows from them do
/// not make a frame buffer.
#[derive(Debug)]
pub struct FrameBufferError(pub(crate) ());

impl FrameBufferError {
    /// The error has a single value: any two are the same.
    pub proof fn lemma_unique(a: FrameBufferError, b: FrameBufferError)
        ensures
            a == b,
    {
    }

    /// The error.
    pub fn new() -> (error: FrameBufferError) {
        FrameBufferError(())
    }

    /// What went wrong, in words.
    pub fn message(&self) -> (text: &'static str)
        ensures
            text@ == "invalid combination of framebuffer size, width, height and/or pitch"@,
    {
        "invalid combination of framebuffer size, width, height and/or pitch"
    }
}

} // verus!
