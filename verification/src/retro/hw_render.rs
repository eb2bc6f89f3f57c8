//! The rendering modes of a core, and the options with which a core asks the
//! frontend for an OpenGL context.

use vstd::prelude::*;
use vstd::std_specs::convert::FromSpecImpl;

mod private;

verus! {

/// A rendering mode.
pub trait RenderType: private::Sealed {
}

/// Proof that the core renders in software.
#[derive(Debug, PartialEq, Eq, Hash)]
pub struct SoftwareRenderEnabled(pub(crate) ());

/// Proof that the frontend gave the core an OpenGL context.
#[derive(Debug, PartialEq, Eq, Hash)]
pub struct GLRenderEnabled(pub(crate) ());

/// A rendering mode that uses the graphics hardware.
pub trait HWRenderEnabled: private::Sealed {
}

impl private::Sealed for GLRenderEnabled {
}

impl HWRenderEnabled for GLRenderEnabled {
}

/// The OpenGL contexts that a core can ask for.
#[derive(Clone, Copy, Debug, PartialEq, Eq, Hash, PartialOrd, Ord, Structural)]
pub enum GLContextType {
    OpenGL2,
    OpenGLCore3_2,
    OpenGLCore3_3,
    OpenGLCore4_0,
    OpenGLCore4_1,
    OpenGLCore4_2,
    OpenGLCore4_3,
    OpenGLCore4_4,
    OpenGLCore4_5,
    OpenGLCore4_6,
    OpenGLES2,
    OpenGLES3,
}

/// The kind of context that the frontend is asked to create.
#[derive(Clone, Copy, Debug, PartialEq, Eq, Hash, Structural)]
pub enum HWContextType {
    /// OpenGL 2.x, or the compatibility profile of a later version.
    OpenGL,
    /// OpenGL ES 2.0.
    OpenGLES2,
    /// The core profile of OpenGL 3.2 or later, in the version asked for.
    OpenGLCore,
    /// OpenGL ES 3.0.
    OpenGLES3,
}

/// What a core asks of the frontend when it wants to render with the graphics
/// hardware: the fields of the libretro request that a core chooses.
#[derive(Clone, Copy, Debug, PartialEq, Eq, Hash, Structural)]
pub struct HWRenderCallback {
    /// The kind of context.
    pub context_type: HWContextType,
    /// The major version of the context, where the kind has versions.
    pub version_major: u32,
    /// The minor version of the context, where the kind has versions.
    pub version_minor: u32,
    /// Whether the origin of the frame is its bottom left corner.
    pub bottom_left_origin: bool,
    /// Whether the frame has a depth buffer.
    pub depth: bool,
    /// Whether the frame has a stencil buffer.
    pub stencil: bool,
    /// Whether the frontend keeps the context alive across resets.
    pub cache_context: bool,
    /// Whether the frontend creates a debug context.
    pub debug_context: bool,
}

/// The kind and the version of an OpenGL context.
struct GLVersion(HWContextType, u8, u8);

/// The kind of context that `gl_type` stands for.
pub open spec fn context_type_of(gl_type: GLContextType) -> HWContextType {
    match gl_type {
        GLContextType::OpenGL2 => HWContextType::OpenGL,
        GLContextType::OpenGLES2 => HWContextType::OpenGLES2,
        GLContextType::OpenGLES3 => HWContextType::OpenGLES3,
        _ => HWContextType::OpenGLCore,
    }
}

/// The major version of the context that `gl_type` stands for.
pub open spec fn version_major_of(gl_type: GLContextType) -> u8 {
    match gl_type {
        GLContextType::OpenGL2 | GLContextType::OpenGLES2 => 2,
        GLContextType::OpenGLCore3_2 | GLContextType::OpenGLCore3_3 | GLContextType::OpenGLES3 => 3,
        _ => 4,
    }
}

/// The minor version of the context that `gl_type` stands for.
pub open spec fn version_minor_of(gl_type: GLContextType) -> u8 {
    match gl_type {
        GLContextType::OpenGLCore4_1 => 1,
        GLContextType::OpenGLCore3_2 | GLContextType::OpenGLCore4_2 => 2,
        GLContextType::OpenGLCore3_3 | GLContextType::OpenGLCore4_3 => 3,
        GLContextType::OpenGLCore4_4 => 4,
        GLContextType::OpenGLCore4_5 => 5,
        GLContextType::OpenGLCore4_6 => 6,
        _ => 0,
    }
}

impl FromSpecImpl<GLContextType> for GLVersion {
    closed spec fn obeys_from_spec() -> bool {
        true
    }

    closed spec fn from_spec(value: GLContextType) -> GLVersion {
        GLVersion(context_type_of(value), version_major_of(value), version_minor_of(value))
    }
}

impl From<GLContextType> for GLVersion {
    fn from(value: GLContextType) -> (version: GLVersion) {
        match value {
            GLContextType::OpenGL2 => GLVersion(HWContextType::OpenGL, 2, 0),
            GLContextType::OpenGLCore3_2 => GLVersion(HWContextType::OpenGLCore, 3, 2),
            GLContextType::OpenGLCore3_3 => GLVersion(HWContextType::OpenGLCore, 3, 3),
            GLContextType::OpenGLCore4_0 => GLVersion(HWContextType::OpenGLCore, 4, 0),
            GLContextType::OpenGLCore4_1 => GLVersion(HWContextType::OpenGLCore, 4, 1),
            GLContextType::OpenGLCore4_2 => GLVersion(HWContextType::OpenGLCore, 4, 2),
            GLContextType::OpenGLCore4_3 => GLVersion(HWContextType::OpenGLCore, 4, 3),
            GLContextType::OpenGLCore4_4 => GLVersion(HWContextType::OpenGLCore, 4, 4),
            GLContextType::OpenGLCore4_5 => GLVersion(HWContextType::OpenGLCore, 4, 5),
            GLContextType::OpenGLCore4_6 => GLVersion(HWContextType::OpenGLCore, 4, 6),
            GLContextType::OpenGLES2 => GLVersion(HWContextType::OpenGLES2, 2, 0),
            GLContextType::OpenGLES3 => GLVersion(HWContextType::OpenGLES3, 3, 0),
        }
    }
}

/// The buffers that a frame has besides its colours.
#[derive(Clone, Copy, Debug, PartialEq, Eq, Hash, PartialOrd, Ord, Structural)]
pub enum GLBufferOptions {
    /// Neither a depth buffer nor a stencil buffer.
    NoBuffers,
    DepthOnly,
    DepthAndStencil,
}

impl Default for GLBufferOptions {
    /// No buffers.
    fn default() -> (buffers: GLBufferOptions)
        ensures
            buffers == GLBufferOptions::NoBuffers,
    {
        GLBufferOptions::NoBuffers
    }
}

/// The options of an OpenGL context, put together step by step.
pub struct GLOptions(HWRenderCallback);

impl View for GLOptions {
    type V = HWRenderCallback;

    closed spec fn view(&self) -> HWRenderCallback {
        self.0
    }
}

impl GLOptions {
    /// The options that ask for `gl_type` and for nothing else.
    pub open spec fn initial(gl_type: GLContextType) -> HWRenderCallback {
        HWRenderCallback {
            context_type: context_type_of(gl_type),
            version_major: version_major_of(gl_type) as u32,
            version_minor: version_minor_of(gl_type) as u32,
            bottom_left_origin: false,
            depth: false,
            stencil: false,
            cache_context: false,
            debug_context: false,
        }
    }

    /// Options for a context of the given type: no depth or stencil buffer,
    /// the origin at the top left, and neither a cached nor a debug context.
    pub fn new(gl_type: GLContextType) -> (options: GLOptions)
        ensures
            options@ == Self::initial(gl_type),
    {
        GLOptions(
            HWRenderCallback {
                context_type: HWContextType::OpenGL,
                version_major: 0,
                version_minor: 0,
                bottom_left_origin: false,
                depth: false,
                stencil: false,
                cache_context: false,
                debug_context: false,
            },
        ).set_gl_type(gl_type)
    }

    /// Asks for a context of the given type. The other options stay.
    pub fn set_gl_type(self, gl_type: GLContextType) -> (options: GLOptions)
        ensures
            options@ == (HWRenderCallback {
                context_type: context_type_of(gl_type),
                version_major: version_major_of(gl_type) as u32,
                version_minor: version_minor_of(gl_type) as u32,
                ..self@
            }),
    {
        let mut options = self;
        let GLVersion(context_type, major, minor) = GLVersion::from(gl_type);
        options.0.context_type = context_type;
        options.0.version_major = major as u32;
        options.0.version_minor = minor as u32;
        options
    }

    /// Says whether the origin of the frame is its bottom left corner. The
    /// other options stay.
    pub fn set_bottom_left_origin(self, bottom_left_origin: bool) -> (options: GLOptions)
        ensures
            options@ == (HWRenderCallback { bottom_left_origin, ..self@ }),
    {
        let mut options = self;
        options.0.bottom_left_origin = bottom_left_origin;
        options
    }

    /// Says which buffers the frame has besides its colours. The other
    /// options stay.
    pub fn set_buffer_options(self, buffers: GLBufferOptions) -> (options: GLOptions)
        ensures
            options@ == (HWRenderCallback {
                depth: buffers != GLBufferOptions::NoBuffers,
                stencil: buffers == GLBufferOptions::DepthAndStencil,
                ..self@
            }),
    {
        let mut options = self;
        match buffers {
            GLBufferOptions::NoBuffers => {
                options.0.depth = false;
                options.0.stencil = false;
            },
            GLBufferOptions::DepthOnly => {
                options.0.depth = true;
                options.0.stencil = false;
            },
            GLBufferOptions::DepthAndStencil => {
                options.0.depth = true;
                options.0.stencil = true;
            },
        }
        options
    }

    /// Says whether the frontend keeps the context alive across resets. The
    /// other options stay.
    pub fn set_cache_context(self, cache_context: bool) -> (options: GLOptions)
        ensures
            options@ == (HWRenderCallback { cache_context, ..self@ }),
    {
        let mut options = self;
        options.0.cache_context = cache_context;
        options
    }

    /// Says whether the frontend creates a debug context. The other options
    /// stay.
    pub fn set_debug_context(self, debug_context: bool) -> (options: GLOptions)
        ensures
            options@ == (HWRenderCallback { debug_context, ..self@ }),
    {
        let mut options = self;
        options.0.debug_context = debug_context;
        options
    }
}

impl FromSpecImpl<GLOptions> for HWRenderCallback {
    open spec fn obeys_from_spec() -> bool {
        true
    }

    open spec fn from_spec(value: GLOptions) -> HWRenderCallback {
        value@
    }
}

impl From<GLOptions> for HWRenderCallback {
    /// The request that the options describe.
    fn from(value: GLOptions) -> (callback: HWRenderCallback) {
        value.0
    }
}

} // verus!
