//! The EGL vocabulary of the bridge: the constants it passes, the calls it
//! asks for and the replies it gets back, the attribute lists it builds, and
//! its errors with their messages.
//!
//! Handles (displays, surfaces, contexts, configurations, native windows) are
//! carried as plain integers; `0` is the null handle (`EGL_NO_DISPLAY`,
//! `EGL_NO_SURFACE`, `EGL_NO_CONTEXT`).

use vstd::prelude::*;
use crate::decimal::{append_i32, lemma_parse_format_roundtrip, spec_format_i32, spec_parse_i32};

verus! {

pub const EGL_TRUE: u32 = 1;

pub const EGL_BAD_SURFACE: i32 = 0x300D;

pub const EGL_ALPHA_SIZE: i32 = 0x3021;

pub const EGL_BLUE_SIZE: i32 = 0x3022;

pub const EGL_GREEN_SIZE: i32 = 0x3023;

pub const EGL_RED_SIZE: i32 = 0x3024;

pub const EGL_DEPTH_SIZE: i32 = 0x3025;

pub const EGL_NATIVE_VISUAL_ID: i32 = 0x302E;

pub const EGL_SURFACE_TYPE: i32 = 0x3033;

pub const EGL_NONE: i32 = 0x3038;

pub const EGL_RENDERABLE_TYPE: i32 = 0x3040;

pub const EGL_HEIGHT: i32 = 0x3056;

pub const EGL_WIDTH: i32 = 0x3057;

pub const EGL_CONTEXT_CLIENT_VERSION: i32 = 0x3098;

pub const EGL_OPENGL_ES_API: u32 = 0x30A0;

pub const EGL_OPENGL_API: u32 = 0x30A2;

pub const EGL_WINDOW_BIT: i32 = 4;

pub const EGL_PBUFFER_BIT: i32 = 1;

pub const EGL_OPENGL_ES2_BIT: i32 = 4;

/// The pixel format that the window's buffers are given (`R8G8B8X8_UNORM`).
pub const AHARDWAREBUFFER_FORMAT_R8G8B8X8_UNORM: i32 = 2;

/// The null handle.
pub const NO_HANDLE: u64 = 0;

/// The attribute lists that the bridge hands to EGL.
#[derive(PartialEq, Eq, Structural, Clone, Copy, Debug)]
pub enum AttribList {
    /// The framebuffer configuration that is searched for.
    Config,
    /// The attributes of a new context for the given client version.
    Context { client_version: i32 },
    /// A 1x1 pixel buffer surface.
    Pbuffer,
}

/// The configuration searched for: 8 bits per colour channel and alpha, a
/// 24-bit depth buffer, window and pbuffer surfaces, OpenGL ES 2 rendering.
pub open spec fn spec_config_attributes() -> Seq<i32> {
    seq![
        EGL_BLUE_SIZE, 8, EGL_GREEN_SIZE, 8, EGL_RED_SIZE, 8, EGL_ALPHA_SIZE, 8,
        EGL_DEPTH_SIZE, 24, EGL_SURFACE_TYPE, 5, EGL_RENDERABLE_TYPE, EGL_OPENGL_ES2_BIT,
        EGL_NONE,
    ]
}

/// The values of an attribute list, `EGL_NONE`-terminated.
pub open spec fn spec_attrib_values(list: AttribList) -> Seq<i32> {
    match list {
        AttribList::Config => spec_config_attributes(),
        AttribList::Context { client_version } => seq![
            EGL_CONTEXT_CLIENT_VERSION,
            client_version,
            EGL_NONE,
        ],
        AttribList::Pbuffer => seq![EGL_WIDTH, 1, EGL_HEIGHT, 1, EGL_NONE],
    }
}

/// The values of `list`, ready to be handed to EGL.
pub fn attrib_values(list: AttribList) -> (r: Vec<i32>)
    ensures
        r@ == spec_attrib_values(list),
{
    match list {
        AttribList::Config => {
            let surface_types: i32 = EGL_WINDOW_BIT | EGL_PBUFFER_BIT;
            assert(surface_types == 5) by (bit_vector)
                requires
                    surface_types == 4i32 | 1i32,
            ;
            let v = vec![
                EGL_BLUE_SIZE,
                8,
                EGL_GREEN_SIZE,
                8,
                EGL_RED_SIZE,
                8,
                EGL_ALPHA_SIZE,
                8,
                EGL_DEPTH_SIZE,
                24,
                EGL_SURFACE_TYPE,
                surface_types,
                EGL_RENDERABLE_TYPE,
                EGL_OPENGL_ES2_BIT,
                EGL_NONE,
            ];
            assert(v@ =~= spec_config_attributes());
            v
        },
        AttribList::Context { client_version } => {
            let v = vec![EGL_CONTEXT_CLIENT_VERSION, client_version, EGL_NONE];
            assert(v@ =~= spec_attrib_values(list));
            v
        },
        AttribList::Pbuffer => {
            let v = vec![EGL_WIDTH, 1, EGL_HEIGHT, 1, EGL_NONE];
            assert(v@ =~= spec_attrib_values(list));
            v
        },
    }
}

/// A call that the bridge asks to be made, on EGL or on the native window.
#[derive(PartialEq, Eq, Structural, Clone, Copy, Debug)]
pub enum EglCall {
    /// `eglGetDisplay(EGL_DEFAULT_DISPLAY)`; the reply's handle is the display.
    GetDisplay,
    /// `eglInitialize(display, NULL, NULL)`; the reply's status is the result.
    Initialize { display: u64 },
    /// `eglGetError()`; the reply's value is the error code.
    GetError,
    /// `eglChooseConfig(display, attributes, NULL, config_size, NULL)`.
    ChooseConfig { display: u64, attributes: AttribList, config_size: i32 },
    /// `eglBindAPI(api)`.
    BindApi { api: u32 },
    /// `eglMakeCurrent(display, draw, read, context)`.
    MakeCurrent { display: u64, draw: u64, read: u64, context: u64 },
    /// `eglSwapBuffers(display, surface)`.
    SwapBuffers { display: u64, surface: u64 },
    /// `eglSwapInterval(display, interval)`.
    SwapInterval { display: u64, interval: i32 },
    /// `eglDestroySurface(display, surface)`.
    DestroySurface { display: u64, surface: u64 },
    /// `eglDestroyContext(display, context)`.
    DestroyContext { display: u64, context: u64 },
    /// `eglTerminate(display)`.
    Terminate { display: u64 },
    /// `eglReleaseThread()`.
    ReleaseThread,
    /// `eglCreateWindowSurface(display, config, window, NULL)`; the reply's
    /// handle is the new surface.
    CreateWindowSurface { display: u64, config: u64, window: u64 },
    /// `eglCreatePbufferSurface(display, config, attributes)`; the reply's
    /// handle is the new surface.
    CreatePbufferSurface { display: u64, config: u64, attributes: AttribList },
    /// `eglQuerySurface(display, surface, attribute, &value)`; the reply's
    /// status is the result and its value the attribute's value.
    QuerySurface { display: u64, surface: u64, attribute: i32 },
    /// `ANativeWindow_release(window)`.
    ReleaseWindow { window: u64 },
    /// `ANativeWindow_acquire(window)`.
    AcquireWindow { window: u64 },
    /// `ANativeWindow_setBuffersGeometry(window, width, height, format)`.
    SetBuffersGeometry { window: u64, width: i32, height: i32, format: i32 },
}

/// What a call gave back: its `EGLBoolean` status, the handle it returned,
/// and the integer it returned or wrote out (the error code of `GetError`).
#[derive(PartialEq, Eq, Structural, Clone, Copy, Debug)]
pub struct EglReply {
    pub status: u32,
    pub handle: u64,
    pub value: i32,
}

/// The errors of the bridge.
#[derive(PartialEq, Eq, Structural, Clone, Copy, Debug)]
pub enum GlError {
    /// `eglGetDisplay` gave `EGL_NO_DISPLAY`.
    NoDisplay,
    /// `eglInitialize` failed with the given EGL error code.
    InitializeFailed(i32),
    /// `eglChooseConfig` failed with the given EGL error code.
    ChooseConfigFailed(i32),
    /// `eglChooseConfig` reported no configuration.
    NoMatchingConfig,
    /// `eglCreateContext` gave `EGL_NO_CONTEXT`, with the given error code.
    /// `gl_init_context` ends before it creates a context, so it never
    /// reports this error.
    CreateContextFailed(i32),
}

/// The message of each error.
pub open spec fn spec_error_message(e: GlError) -> Seq<char> {
    match e {
        GlError::NoDisplay => "eglGetDisplay(EGL_DEFAULT_DISPLAY) returned EGL_NO_DISPLAY"@,
        GlError::InitializeFailed(code) => "eglInitialize_p() failed: "@ + spec_format_i32(code),
        GlError::ChooseConfigFailed(code) => "eglChooseConfig() failed: "@ + spec_format_i32(code),
        GlError::NoMatchingConfig => "eglChooseConfig() found no matching config"@,
        GlError::CreateContextFailed(code) => "eglCreateContext() finished with error: "@
            + spec_format_i32(code),
    }
}

impl GlError {
    /// The human-readable message of the error.
    pub fn message(&self) -> (r: String)
        ensures
            r@ == spec_error_message(*self),
    {
        match self {
            GlError::NoDisplay => String::from_str(
                "eglGetDisplay(EGL_DEFAULT_DISPLAY) returned EGL_NO_DISPLAY",
            ),
            GlError::InitializeFailed(code) => {
                let mut s = String::from_str("eglInitialize_p() failed: ");
                append_i32(&mut s, *code);
                s
            },
            GlError::ChooseConfigFailed(code) => {
                let mut s = String::from_str("eglChooseConfig() failed: ");
                append_i32(&mut s, *code);
                s
            },
            GlError::NoMatchingConfig => String::from_str(
                "eglChooseConfig() found no matching config",
            ),
            GlError::CreateContextFailed(code) => {
                let mut s = String::from_str("eglCreateContext() finished with error: ");
                append_i32(&mut s, *code);
                s
            },
        }
    }
}

/// The EGL error code that a message reports reads back, as an `i32`, from
/// the text that follows the message's fixed prefix.
pub proof fn lemma_error_code_reads_back(code: i32)
    ensures
        ({
            let prefix = "eglInitialize_p() failed: "@;
            let message = spec_error_message(GlError::InitializeFailed(code));
            &&& message.subrange(0, prefix.len() as int) == prefix
            &&& spec_parse_i32(message.subrange(prefix.len() as int, message.len() as int))
                == Some(code)
        }),
        ({
            let prefix = "eglChooseConfig() failed: "@;
            let message = spec_error_message(GlError::ChooseConfigFailed(code));
            &&& message.subrange(0, prefix.len() as int) == prefix
            &&& spec_parse_i32(message.subrange(prefix.len() as int, message.len() as int))
                == Some(code)
        }),
        ({
            let prefix = "eglCreateContext() finished with error: "@;
            let message = spec_error_message(GlError::CreateContextFailed(code));
            &&& message.subrange(0, prefix.len() as int) == prefix
            &&& spec_parse_i32(message.subrange(prefix.len() as int, message.len() as int))
                == Some(code)
        }),
{
    lemma_parse_format_roundtrip(code);
    let digits = spec_format_i32(code);
    let p1 = "eglInitialize_p() failed: "@;
    let m1 = p1 + digits;
    assert(m1.subrange(0, p1.len() as int) =~= p1);
    assert(m1.subrange(p1.len() as int, m1.len() as int) =~= digits);
    let p2 = "eglChooseConfig() failed: "@;
    let m2 = p2 + digits;
    assert(m2.subrange(0, p2.len() as int) =~= p2);
    assert(m2.subrange(p2.len() as int, m2.len() as int) =~= digits);
    let p3 = "eglCreateContext() finished with error: "@;
    let m3 = p3 + digits;
    assert(m3.subrange(0, p3.len() as int) =~= p3);
    assert(m3.subrange(p3.len() as int, m3.len() as int) =~= digits);
}

} // verus!
