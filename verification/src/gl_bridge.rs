//! The EGL renderer bridge: bringing up the display, creating contexts,
//! making a window current, presenting frames, and the small decisions
//! around them.
//!
//! The operations that talk to EGL are state machines. Each starts with a
//! batch of calls to make in order; the caller makes them and hands back the
//! reply of the last call of the batch to `step`, which answers with the next
//! batch. An empty batch means that the operation has finished, and its
//! outcome stands in its `phase`.

use vstd::prelude::*;
use crate::egl::{
    AttribList, EglCall, EglReply, GlError, AHARDWAREBUFFER_FORMAT_R8G8B8X8_UNORM, EGL_BAD_SURFACE,
    EGL_HEIGHT, EGL_OPENGL_API, EGL_OPENGL_ES_API, EGL_TRUE, EGL_WIDTH, NO_HANDLE,
};
use crate::environ::Environ;
use crate::render_window::{GLRenderWindow, STATE_RENDERER_NEW_WINDOW};
use crate::decimal::{parse_i32, spec_parse_i32};
use crate::text::str_eq;

verus! {

/// `eglMakeCurrent` with no surface and no context: releases the current one.
pub open spec fn spec_release_current(display: u64) -> EglCall {
    EglCall::MakeCurrent { display, draw: NO_HANDLE, read: NO_HANDLE, context: NO_HANDLE }
}

/// `eglMakeCurrent` on the window's surface and context.
pub open spec fn spec_bind_window(display: u64, w: GLRenderWindow) -> EglCall {
    EglCall::MakeCurrent { display, draw: w.surface, read: w.surface, context: w.context }
}

// ---------------------------------------------------------------------------
// Bringing up the display
// ---------------------------------------------------------------------------

/// Where `gl_init` stands.
#[derive(Clone, Copy, Debug)]
pub enum InitPhase {
    AwaitDisplay,
    AwaitInitialize,
    AwaitError,
    Done(Result<(), GlError>),
}

/// The bring-up of the default EGL display. `display` is the display that
/// `eglGetDisplay` gave, kept whether or not it is usable.
#[derive(Clone, Copy, Debug)]
pub struct GlInit {
    pub phase: InitPhase,
    pub display: u64,
}

/// One step of the bring-up: a null display fails at once; otherwise the
/// display is initialized, and a failed initialization is reported with the
/// EGL error code read right after it.
pub open spec fn spec_gl_init_step(m: GlInit, reply: EglReply) -> (GlInit, Seq<EglCall>) {
    match m.phase {
        InitPhase::AwaitDisplay => if reply.handle == NO_HANDLE {
            (
                GlInit { phase: InitPhase::Done(Err(GlError::NoDisplay)), display: reply.handle },
                Seq::empty(),
            )
        } else {
            (
                GlInit { phase: InitPhase::AwaitInitialize, display: reply.handle },
                seq![EglCall::Initialize { display: reply.handle }],
            )
        },
        InitPhase::AwaitInitialize => if reply.status == EGL_TRUE {
            (GlInit { phase: InitPhase::Done(Ok(())), ..m }, Seq::empty())
        } else {
            (GlInit { phase: InitPhase::AwaitError, ..m }, seq![EglCall::GetError])
        },
        InitPhase::AwaitError => (
            GlInit { phase: InitPhase::Done(Err(GlError::InitializeFailed(reply.value))), ..m },
            Seq::empty(),
        ),
        InitPhase::Done(_) => (m, Seq::empty()),
    }
}

/// Starts the bring-up of the default display: first `eglGetDisplay`.
pub fn gl_init() -> (r: (GlInit, Vec<EglCall>))
    ensures
        r.0 == (GlInit { phase: InitPhase::AwaitDisplay, display: NO_HANDLE }),
        r.1@ == seq![EglCall::GetDisplay],
{
    let calls = vec![EglCall::GetDisplay];
    assert(calls@ =~= seq![EglCall::GetDisplay]);
    (GlInit { phase: InitPhase::AwaitDisplay, display: NO_HANDLE }, calls)
}

impl GlInit {
    /// Hands back the reply of the last call asked for.
    pub fn step(&mut self, reply: EglReply) -> (r: Vec<EglCall>)
        ensures
            (*final(self), r@) == spec_gl_init_step(*old(self), reply),
    {
        let mut calls: Vec<EglCall> = Vec::new();
        match self.phase {
            InitPhase::AwaitDisplay => {
                self.display = reply.handle;
                if reply.handle == NO_HANDLE {
                    self.phase = InitPhase::Done(Err(GlError::NoDisplay));
                } else {
                    self.phase = InitPhase::AwaitInitialize;
                    calls.push(EglCall::Initialize { display: reply.handle });
                }
            },
            InitPhase::AwaitInitialize => {
                if reply.status == EGL_TRUE {
                    self.phase = InitPhase::Done(Ok(()));
                } else {
                    self.phase = InitPhase::AwaitError;
                    calls.push(EglCall::GetError);
                }
            },
            InitPhase::AwaitError => {
                self.phase = InitPhase::Done(Err(GlError::InitializeFailed(reply.value)));
            },
            InitPhase::Done(_) => {},
        }
        assert(calls@ =~= spec_gl_init_step(*old(self), reply).1);
        calls
    }
}

/// The bring-up fails for want of a display exactly when `eglGetDisplay`
/// gives the null display, and otherwise ends, within two more replies, in
/// success exactly when `eglInitialize` succeeded.
pub proof fn lemma_gl_init_outcome(display: EglReply, init: EglReply, error: EglReply)
    ensures
        ({
            let m0 = GlInit { phase: InitPhase::AwaitDisplay, display: NO_HANDLE };
            let m1 = spec_gl_init_step(m0, display).0;
            let m2 = spec_gl_init_step(m1, init).0;
            let m3 = spec_gl_init_step(m2, error).0;
            &&& (m1.phase == InitPhase::Done(Err(GlError::NoDisplay))) <==> display.handle
                == NO_HANDLE
            &&& m1.display == display.handle
            &&& display.handle != NO_HANDLE ==> (m2.phase == InitPhase::Done(Ok(()))
                <==> init.status == EGL_TRUE)
            &&& display.handle != NO_HANDLE && init.status != EGL_TRUE ==> m3.phase
                == InitPhase::Done(Err(GlError::InitializeFailed(error.value)))
            &&& m3.phase is Done
        }),
{
}

// ---------------------------------------------------------------------------
// Creating a context
// ---------------------------------------------------------------------------

/// Where `gl_init_context` stands.
#[derive(Clone, Copy, Debug)]
pub enum ContextPhase {
    AwaitConfigs,
    AwaitError,
    Done(Result<GLRenderWindow, GlError>),
}

/// The creation of a rendering context on `display`, sharing objects with
/// the context `share_context` (null for none). The search for a
/// configuration is as far as it goes (see `spec_gl_init_context_step`), so
/// `share_context` is recorded but never handed to EGL.
#[derive(Clone, Copy, Debug)]
pub struct GlInitContext {
    pub phase: ContextPhase,
    pub display: u64,
    pub share_context: u64,
}

/// The context that a new context shares objects with.
pub open spec fn spec_share_context(share: Option<GLRenderWindow>) -> u64 {
    match share {
        Some(w) => w.context,
        None => NO_HANDLE,
    }
}

/// One step of the context creation. The configuration search is made
/// without asking for the number of matching configurations; a failed search
/// is reported with the EGL error code read right after it, and a search
/// that succeeded leaves no count of configurations, so it ends in
/// `NoMatchingConfig`.
pub open spec fn spec_gl_init_context_step(m: GlInitContext, reply: EglReply) -> (
    GlInitContext,
    Seq<EglCall>,
) {
    match m.phase {
        ContextPhase::AwaitConfigs => if reply.status != EGL_TRUE {
            (GlInitContext { phase: ContextPhase::AwaitError, ..m }, seq![EglCall::GetError])
        } else {
            (
                GlInitContext { phase: ContextPhase::Done(Err(GlError::NoMatchingConfig)), ..m },
                Seq::empty(),
            )
        },
        ContextPhase::AwaitError => (
            GlInitContext {
                phase: ContextPhase::Done(Err(GlError::ChooseConfigFailed(reply.value))),
                ..m
            },
            Seq::empty(),
        ),
        ContextPhase::Done(_) => (m, Seq::empty()),
    }
}

/// The context that a new context shares objects with: that of `share`, or
/// none.
pub fn share_context(share: Option<&GLRenderWindow>) -> (r: u64)
    ensures
        r == spec_share_context(match share {
            Some(w) => Some(*w),
            None => None,
        }),
{
    match share {
        Some(w) => w.context,
        None => NO_HANDLE,
    }
}

/// Starts the creation of a context on `display`: first the search for a
/// framebuffer configuration.
pub fn gl_init_context(display: u64, share: Option<&GLRenderWindow>) -> (r: (
    GlInitContext,
    Vec<EglCall>,
))
    ensures
        r.0 == (GlInitContext {
            phase: ContextPhase::AwaitConfigs,
            display,
            share_context: spec_share_context(
                match share {
                    Some(w) => Some(*w),
                    None => None,
                },
            ),
        }),
        r.1@ == seq![
            EglCall::ChooseConfig { display, attributes: AttribList::Config, config_size: 0 },
        ],
{
    let calls = vec![
        EglCall::ChooseConfig { display, attributes: AttribList::Config, config_size: 0 },
    ];
    assert(calls@ =~= seq![
        EglCall::ChooseConfig { display, attributes: AttribList::Config, config_size: 0 },
    ]);
    (
        GlInitContext {
            phase: ContextPhase::AwaitConfigs,
            display,
            share_context: share_context(share),
        },
        calls,
    )
}

impl GlInitContext {
    /// Hands back the reply of the last call asked for.
    pub fn step(&mut self, reply: EglReply) -> (r: Vec<EglCall>)
        ensures
            (*final(self), r@) == spec_gl_init_context_step(*old(self), reply),
    {
        let mut calls: Vec<EglCall> = Vec::new();
        match self.phase {
            ContextPhase::AwaitConfigs => {
                if reply.status != EGL_TRUE {
                    self.phase = ContextPhase::AwaitError;
                    calls.push(EglCall::GetError);
                } else {
                    self.phase = ContextPhase::Done(Err(GlError::NoMatchingConfig));
                }
            },
            ContextPhase::AwaitError => {
                self.phase = ContextPhase::Done(Err(GlError::ChooseConfigFailed(reply.value)));
            },
            ContextPhase::Done(_) => {},
        }
        assert(calls@ =~= spec_gl_init_context_step(*old(self), reply).1);
        calls
    }
}

/// The renderer name that asks for desktop OpenGL.
pub open spec fn spec_desktop_gl_renderer() -> Seq<char> {
    "opengles3_desktopgl"@
}

/// The client API to bind for the renderer named `renderer`: desktop OpenGL
/// for `opengles3_desktopgl`, OpenGL ES for any other.
pub open spec fn spec_renderer_api(renderer: Seq<char>) -> u32 {
    if renderer == spec_desktop_gl_renderer() {
        EGL_OPENGL_API
    } else {
        EGL_OPENGL_ES_API
    }
}

/// Desktop OpenGL is bound for the renderer named exactly
/// `opengles3_desktopgl` and for no other name; every other name binds
/// OpenGL ES.
pub proof fn lemma_renderer_api_exact_name(renderer: Seq<char>)
    ensures
        (spec_renderer_api(renderer) == EGL_OPENGL_API) <==> (renderer
            == "opengles3_desktopgl"@),
        (spec_renderer_api(renderer) == EGL_OPENGL_ES_API) <==> (renderer
            != "opengles3_desktopgl"@),
{
}

/// The client API to bind for the renderer named `renderer`.
///
/// `gl_init_context` ends with the configuration search (see
/// `spec_gl_init_context_step`), so it never reaches the API binding, the
/// version setting or the context creation that this describes.
pub fn renderer_api(renderer: &str) -> (r: u32)
    ensures
        r == spec_renderer_api(renderer@),
        (r == EGL_OPENGL_API) <==> (renderer@ == "opengles3_desktopgl"@),
        r == EGL_OPENGL_API || r == EGL_OPENGL_ES_API,
{
    if str_eq(renderer, "opengles3_desktopgl") {
        EGL_OPENGL_API
    } else {
        EGL_OPENGL_ES_API
    }
}

/// The OpenGL ES client version to ask for: the requested one if it lies in
/// `0..=i16::MAX`, else 2.
pub open spec fn spec_gles_client_version(requested: i32) -> i32 {
    if requested < 0 || requested > 32767 {
        2
    } else {
        requested
    }
}

/// The OpenGL ES client version to ask for.
///
/// `gl_init_context` ends with the configuration search (see
/// `spec_gl_init_context_step`), so it never reaches the API binding, the
/// version setting or the context creation that this describes.
pub fn gles_client_version(requested: i32) -> (r: i32)
    ensures
        r == spec_gles_client_version(requested),
{
    if requested < 0 || requested > i16::MAX as i32 {
        2
    } else {
        requested
    }
}

/// The client version for the text of the version setting: `None` when the
/// text is not an `i32`.
///
/// `gl_init_context` ends with the configuration search (see
/// `spec_gl_init_context_step`), so it never reaches the API binding, the
/// version setting or the context creation that this describes.
pub fn parse_gles_version(setting: &str) -> (r: Option<i32>)
    ensures
        r == match spec_parse_i32(setting@) {
            Some(v) => Some(spec_gles_client_version(v)),
            None => None,
        },
{
    match parse_i32(setting) {
        Some(v) => Some(gles_client_version(v)),
        None => None,
    }
}

/// The client version asked for always lies in `0..=i16::MAX`, and a version
/// in that range is asked for as it is.
pub proof fn lemma_gles_client_version_range(requested: i32)
    ensures
        0 <= spec_gles_client_version(requested) <= 32767,
        0 <= requested <= 32767 ==> spec_gles_client_version(requested) == requested,
        spec_gles_client_version(spec_gles_client_version(requested))
            == spec_gles_client_version(requested),
{
}

// ---------------------------------------------------------------------------
// Making a window current
// ---------------------------------------------------------------------------

/// How `gl_make_current` ended.
#[derive(PartialEq, Eq, Structural, Clone, Copy, Debug)]
pub enum MakeCurrentOutcome {
    /// The current context was released.
    Released,
    /// Releasing the current context failed.
    ReleaseFailed,
    /// The window was made current.
    Made,
    /// Making the window current failed with the given EGL error code.
    Failed(i32),
}

/// Where `gl_make_current` stands.
#[derive(PartialEq, Eq, Structural, Clone, Copy, Debug)]
pub enum MakeCurrentPhase {
    AwaitRelease,
    AwaitMakeCurrent,
    AwaitError,
    Done(MakeCurrentOutcome),
}

/// Making a window current (or, with none, releasing the current context).
/// `window` is the window as it stands now; `has_set_main_window` whether it
/// was taken as the main window.
#[derive(PartialEq, Eq, Structural, Clone, Copy, Debug)]
pub struct GlMakeCurrent {
    pub phase: MakeCurrentPhase,
    pub display: u64,
    pub window: Option<GLRenderWindow>,
    pub has_set_main_window: bool,
}

/// The window once it has been taken as the main window: its pending native
/// window becomes the one that Java handed over.
pub open spec fn spec_as_main_window(w: GLRenderWindow, env: Environ) -> GLRenderWindow {
    if env.main_window_bundle is None {
        GLRenderWindow { new_native_surface: env.pojav_window, ..w }
    } else {
        w
    }
}

/// The inputs on which making a window current runs to its end: a window
/// taken as the main window (none being registered) needs the native window
/// that Java handed over, and the window must already have a surface (giving
/// it one here would take the display lock a second time, which never
/// returns).
pub open spec fn spec_make_current_accepts(bundle: Option<GLRenderWindow>, env: Environ) -> bool {
    match bundle {
        Some(w) => (env.main_window_bundle is None ==> env.pojav_window is Some) && w.surface
            != NO_HANDLE,
        None => true,
    }
}

/// The start of `gl_make_current`.
pub open spec fn spec_gl_make_current_start(
    display: u64,
    bundle: Option<GLRenderWindow>,
    env: Environ,
) -> (GlMakeCurrent, Seq<EglCall>) {
    match bundle {
        None => (
            GlMakeCurrent {
                phase: MakeCurrentPhase::AwaitRelease,
                display,
                window: None,
                has_set_main_window: false,
            },
            seq![spec_release_current(display)],
        ),
        Some(w) => {
            let w1 = spec_as_main_window(w, env);
            (
                GlMakeCurrent {
                    phase: MakeCurrentPhase::AwaitMakeCurrent,
                    display,
                    window: Some(w1),
                    has_set_main_window: env.main_window_bundle is None,
                },
                seq![spec_bind_window(display, w1)],
            )
        },
    }
}

/// Taking a window as the main window changes only its pending native
/// window, which becomes the one that Java handed over; the native window in
/// use, the surface, the context and every other field stay. A window that
/// is not taken (a main window is registered) is left as it is.
pub proof fn lemma_main_window_takes_only_pending(
    display: u64,
    w: GLRenderWindow,
    env: Environ,
)
    ensures
        ({
            let m0 = spec_gl_make_current_start(display, Some(w), env).0;
            let w1 = m0.window->0;
            &&& m0.window is Some
            &&& w1.state == w.state
            &&& w1.native_surface == w.native_surface
            &&& w1.config == w.config
            &&& w1.format == w.format
            &&& w1.context == w.context
            &&& w1.surface == w.surface
            &&& env.main_window_bundle is None ==> w1.new_native_surface == env.pojav_window
            &&& env.main_window_bundle is Some ==> w1.new_native_surface == w.new_native_surface
            &&& m0.has_set_main_window == (env.main_window_bundle is None)
        }),
{
}

/// The replies on which a step runs to its end: a failed binding of a
/// window that was just taken as the main window finds no main window
/// registered, and stops there.
pub open spec fn spec_make_current_step_accepts(m: GlMakeCurrent, reply: EglReply) -> bool {
    !(m.phase == MakeCurrentPhase::AwaitMakeCurrent && reply.status != EGL_TRUE
        && m.has_set_main_window)
}

/// One step of `gl_make_current`.
pub open spec fn spec_gl_make_current_step(m: GlMakeCurrent, reply: EglReply) -> (
    GlMakeCurrent,
    Seq<EglCall>,
) {
    match m.phase {
        MakeCurrentPhase::AwaitRelease => (
            GlMakeCurrent {
                phase: MakeCurrentPhase::Done(
                    if reply.status == EGL_TRUE {
                        MakeCurrentOutcome::Released
                    } else {
                        MakeCurrentOutcome::ReleaseFailed
                    },
                ),
                ..m
            },
            Seq::empty(),
        ),
        MakeCurrentPhase::AwaitMakeCurrent => if reply.status == EGL_TRUE {
            (
                GlMakeCurrent { phase: MakeCurrentPhase::Done(MakeCurrentOutcome::Made), ..m },
                Seq::empty(),
            )
        } else {
            (GlMakeCurrent { phase: MakeCurrentPhase::AwaitError, ..m }, seq![EglCall::GetError])
        },
        MakeCurrentPhase::AwaitError => (
            GlMakeCurrent {
                phase: MakeCurrentPhase::Done(MakeCurrentOutcome::Failed(reply.value)),
                ..m
            },
            Seq::empty(),
        ),
        MakeCurrentPhase::Done(_) => (m, Seq::empty()),
    }
}

/// Starts making `bundle` current on `display` (or releasing the current
/// context when there is none). A window that is taken as the main window
/// (when none is registered) gets the native window that Java handed over as
/// its pending one; the window is then bound.
pub fn gl_make_current(display: u64, bundle: Option<GLRenderWindow>, env: &Environ) -> (r: (
    GlMakeCurrent,
    Vec<EglCall>,
))
    requires
        spec_make_current_accepts(bundle, *env),
    ensures
        (r.0, r.1@) == spec_gl_make_current_start(display, bundle, *env),
        bundle matches Some(w) ==> r.0.window == Some(
            if env.main_window_bundle is None {
                GLRenderWindow { new_native_surface: env.pojav_window, ..w }
            } else {
                w
            },
        ),
{
    match bundle {
        None => {
            let calls = vec![
                EglCall::MakeCurrent {
                    display,
                    draw: NO_HANDLE,
                    read: NO_HANDLE,
                    context: NO_HANDLE,
                },
            ];
            assert(calls@ =~= seq![spec_release_current(display)]);
            (
                GlMakeCurrent {
                    phase: MakeCurrentPhase::AwaitRelease,
                    display,
                    window: None,
                    has_set_main_window: false,
                },
                calls,
            )
        },
        Some(w) => {
            let mut w1 = w;
            let has_set = env.main_window_bundle.is_none();
            if has_set {
                w1.new_native_surface = env.pojav_window;
            }
            assert(w1 == spec_as_main_window(w, *env));
            let calls = vec![bind_window(display, &w1)];
            assert(calls@ =~= seq![spec_bind_window(display, w1)]);
            (
                GlMakeCurrent {
                    phase: MakeCurrentPhase::AwaitMakeCurrent,
                    display,
                    window: Some(w1),
                    has_set_main_window: has_set,
                },
                calls,
            )
        },
    }
}

impl GlMakeCurrent {
    /// Hands back the reply of the last call asked for.
    pub fn step(&mut self, reply: EglReply) -> (r: Vec<EglCall>)
        requires
            spec_make_current_step_accepts(*old(self), reply),
        ensures
            (*final(self), r@) == spec_gl_make_current_step(*old(self), reply),
    {
        let mut calls: Vec<EglCall> = Vec::new();
        match self.phase {
            MakeCurrentPhase::AwaitRelease => {
                if reply.status == EGL_TRUE {
                    self.phase = MakeCurrentPhase::Done(MakeCurrentOutcome::Released);
                } else {
                    self.phase = MakeCurrentPhase::Done(MakeCurrentOutcome::ReleaseFailed);
                }
            },
            MakeCurrentPhase::AwaitMakeCurrent => {
                if reply.status == EGL_TRUE {
                    self.phase = MakeCurrentPhase::Done(MakeCurrentOutcome::Made);
                } else {
                    self.phase = MakeCurrentPhase::AwaitError;
                    calls.push(EglCall::GetError);
                }
            },
            MakeCurrentPhase::AwaitError => {
                self.phase = MakeCurrentPhase::Done(MakeCurrentOutcome::Failed(reply.value));
            },
            MakeCurrentPhase::Done(_) => {},
        }
        assert(calls@ =~= spec_gl_make_current_step(*old(self), reply).1);
        calls
    }
}

/// The window that is current after `gl_make_current` ended in `outcome`:
/// a release or a success leaves none; a failure leaves it as it was.
pub open spec fn spec_current_after(current: Option<u64>, outcome: MakeCurrentOutcome) -> Option<
    u64,
> {
    match outcome {
        MakeCurrentOutcome::Released => None,
        MakeCurrentOutcome::Made => None,
        _ => current,
    }
}

/// The window that is current after `gl_make_current` ended in `outcome`.
pub fn current_after(current: Option<u64>, outcome: MakeCurrentOutcome) -> (r: Option<u64>)
    ensures
        r == spec_current_after(current, outcome),
{
    match outcome {
        MakeCurrentOutcome::Released => None,
        MakeCurrentOutcome::Made => None,
        _ => current,
    }
}

/// Releasing the current context (no window given) ends at the first reply:
/// `Released` exactly when `eglMakeCurrent` succeeded, and then no window is
/// current; otherwise the current window stays.
pub proof fn lemma_gl_make_current_release(
    display: u64,
    env: Environ,
    reply: EglReply,
    current: Option<u64>,
)
    ensures
        ({
            let (m0, calls) = spec_gl_make_current_start(display, None, env);
            let m1 = spec_gl_make_current_step(m0, reply).0;
            &&& calls == seq![spec_release_current(display)]
            &&& spec_make_current_step_accepts(m0, reply)
            &&& m1.phase == MakeCurrentPhase::Done(
                if reply.status == EGL_TRUE {
                    MakeCurrentOutcome::Released
                } else {
                    MakeCurrentOutcome::ReleaseFailed
                },
            )
            &&& reply.status == EGL_TRUE ==> spec_current_after(
                current,
                MakeCurrentOutcome::Released,
            ) is None
            &&& reply.status != EGL_TRUE ==> spec_current_after(
                current,
                MakeCurrentOutcome::ReleaseFailed,
            ) == current
        }),
{
}

/// Making a window current, from start to end. With no main window
/// registered the window takes the native window that Java handed over as
/// its pending one, and is bound on its surface. Success ends in `Made` and
/// leaves no window current. A failure runs to its end only when a main
/// window was registered, and then ends in `Failed` with the error code read
/// next, the current window staying as it was.
pub proof fn lemma_gl_make_current_outcome(
    display: u64,
    w: GLRenderWindow,
    env: Environ,
    bind: EglReply,
    error: EglReply,
    current: Option<u64>,
)
    requires
        spec_make_current_accepts(Some(w), env),
    ensures
        ({
            let w1 = spec_as_main_window(w, env);
            let has_set = env.main_window_bundle is None;
            let (m0, calls0) = spec_gl_make_current_start(display, Some(w), env);
            let m1 = spec_gl_make_current_step(m0, bind).0;
            let m2 = spec_gl_make_current_step(m1, error).0;
            &&& has_set ==> w1.new_native_surface == env.pojav_window
            &&& !has_set ==> w1 == w
            &&& calls0 == seq![spec_bind_window(display, w1)]
            &&& m0.window == Some(w1)
            &&& (spec_make_current_step_accepts(m0, bind) <==> (bind.status == EGL_TRUE
                || !has_set))
            &&& (bind.status == EGL_TRUE ==> m1.phase == MakeCurrentPhase::Done(
                MakeCurrentOutcome::Made,
            ) && spec_current_after(current, MakeCurrentOutcome::Made) is None)
            &&& (bind.status != EGL_TRUE && !has_set ==> m2.phase == MakeCurrentPhase::Done(
                MakeCurrentOutcome::Failed(error.value),
            ) && spec_current_after(current, MakeCurrentOutcome::Failed(error.value))
                == current)
            &&& m2.window == Some(w1)
        }),
{
}

// ---------------------------------------------------------------------------
// Presenting a frame
// ---------------------------------------------------------------------------

/// How `gl_swap_buffers` ended.
#[derive(PartialEq, Eq, Structural, Clone, Copy, Debug)]
pub enum SwapOutcome {
    /// The frame was presented.
    Presented,
    /// The window has no surface; nothing was presented.
    NoSurface,
    /// Presenting failed with the given EGL error code.
    SwapFailed(i32),
}

/// Where `gl_swap_buffers` stands.
#[derive(PartialEq, Eq, Structural, Clone, Copy, Debug)]
pub enum SwapPhase {
    AwaitSwap,
    AwaitSwapError,
    Done(SwapOutcome),
}

/// Presenting a frame of the current window.
#[derive(PartialEq, Eq, Structural, Clone, Copy, Debug)]
pub struct GlSwapBuffers {
    pub phase: SwapPhase,
    pub display: u64,
    pub window: GLRenderWindow,
}

/// The windows whose frame is presented to its end: one that waits for a
/// new native window would have its surface replaced here, which takes the
/// display lock a second time and never returns.
pub open spec fn spec_swap_buffers_accepts(w: GLRenderWindow) -> bool {
    w.state != STATE_RENDERER_NEW_WINDOW
}

/// The start of `gl_swap_buffers`: present, or, without a surface, end at
/// once.
pub open spec fn spec_gl_swap_buffers_start(display: u64, w: GLRenderWindow) -> (
    GlSwapBuffers,
    Seq<EglCall>,
) {
    if w.surface != NO_HANDLE {
        (
            GlSwapBuffers { phase: SwapPhase::AwaitSwap, display, window: w },
            seq![EglCall::SwapBuffers { display, surface: w.surface }],
        )
    } else {
        (
            GlSwapBuffers { phase: SwapPhase::Done(SwapOutcome::NoSurface), display, window: w },
            Seq::empty(),
        )
    }
}

/// The replies on which a step runs to its end: a lost surface
/// (`EGL_BAD_SURFACE`) would have the surface replaced, which takes the
/// display lock a second time and never returns.
pub open spec fn spec_swap_buffers_step_accepts(m: GlSwapBuffers, reply: EglReply) -> bool {
    !(m.phase == SwapPhase::AwaitSwapError && reply.value == EGL_BAD_SURFACE)
}

/// One step of `gl_swap_buffers`. A failed swap reads the EGL error, which
/// ends the frame.
pub open spec fn spec_gl_swap_buffers_step(m: GlSwapBuffers, reply: EglReply) -> (
    GlSwapBuffers,
    Seq<EglCall>,
) {
    match m.phase {
        SwapPhase::AwaitSwap => if reply.status == EGL_TRUE {
            (GlSwapBuffers { phase: SwapPhase::Done(SwapOutcome::Presented), ..m }, Seq::empty())
        } else {
            (GlSwapBuffers { phase: SwapPhase::AwaitSwapError, ..m }, seq![EglCall::GetError])
        },
        SwapPhase::AwaitSwapError => (
            GlSwapBuffers { phase: SwapPhase::Done(SwapOutcome::SwapFailed(reply.value)), ..m },
            Seq::empty(),
        ),
        SwapPhase::Done(_) => (m, Seq::empty()),
    }
}

fn release_current(display: u64) -> (r: EglCall)
    ensures
        r == spec_release_current(display),
{
    EglCall::MakeCurrent { display, draw: NO_HANDLE, read: NO_HANDLE, context: NO_HANDLE }
}

fn bind_window(display: u64, w: &GLRenderWindow) -> (r: EglCall)
    ensures
        r == spec_bind_window(display, *w),
{
    EglCall::MakeCurrent { display, draw: w.surface, read: w.surface, context: w.context }
}

impl GlSwapBuffers {
    /// Hands back the reply of the last call asked for.
    pub fn step(&mut self, reply: EglReply) -> (r: Vec<EglCall>)
        requires
            spec_swap_buffers_step_accepts(*old(self), reply),
        ensures
            (*final(self), r@) == spec_gl_swap_buffers_step(*old(self), reply),
    {
        match self.phase {
            SwapPhase::AwaitSwap => {
                if reply.status == EGL_TRUE {
                    self.phase = SwapPhase::Done(SwapOutcome::Presented);
                    Vec::new()
                } else {
                    self.phase = SwapPhase::AwaitSwapError;
                    let calls = vec![EglCall::GetError];
                    assert(calls@ =~= seq![EglCall::GetError]);
                    calls
                }
            },
            SwapPhase::AwaitSwapError => {
                self.phase = SwapPhase::Done(SwapOutcome::SwapFailed(reply.value));
                Vec::new()
            },
            SwapPhase::Done(_) => Vec::new(),
        }
    }
}

/// Starts presenting a frame of `window` on `display`.
pub fn gl_swap_buffers(display: u64, window: GLRenderWindow) -> (r: (GlSwapBuffers, Vec<EglCall>))
    requires
        spec_swap_buffers_accepts(window),
    ensures
        (r.0, r.1@) == spec_gl_swap_buffers_start(display, window),
{
    if window.surface != NO_HANDLE {
        let calls = vec![EglCall::SwapBuffers { display, surface: window.surface }];
        assert(calls@ =~= seq![EglCall::SwapBuffers { display, surface: window.surface }]);
        (GlSwapBuffers { phase: SwapPhase::AwaitSwap, display, window }, calls)
    } else {
        (GlSwapBuffers { phase: SwapPhase::Done(SwapOutcome::NoSurface), display, window }, Vec::new())
    }
}

/// Presenting a frame leaves the window as it was, ends within two replies,
/// and succeeds exactly when the swap succeeded; a failure other than a lost
/// surface is reported with the error code read after it.
pub proof fn lemma_gl_swap_buffers_outcome(
    display: u64,
    w: GLRenderWindow,
    swap: EglReply,
    error: EglReply,
)
    requires
        spec_swap_buffers_accepts(w),
        w.surface != NO_HANDLE,
        error.value != EGL_BAD_SURFACE,
    ensures
        ({
            let m0 = spec_gl_swap_buffers_start(display, w).0;
            let m1 = spec_gl_swap_buffers_step(m0, swap).0;
            let m2 = spec_gl_swap_buffers_step(m1, error).0;
            &&& spec_swap_buffers_step_accepts(m0, swap)
            &&& spec_swap_buffers_step_accepts(m1, error)
            &&& (m1.phase == SwapPhase::Done(SwapOutcome::Presented) <==> swap.status == EGL_TRUE)
            &&& swap.status != EGL_TRUE ==> m2.phase == SwapPhase::Done(
                SwapOutcome::SwapFailed(error.value),
            )
            &&& m2.phase is Done
            &&& m2.window == w
        }),
{
}

// ---------------------------------------------------------------------------
// Small decisions
// ---------------------------------------------------------------------------

/// The swap interval actually set: one when vsync is forced, else the one
/// asked for.
pub open spec fn spec_swap_interval(force_vsync: bool, requested: i32) -> i32 {
    if force_vsync {
        1
    } else {
        requested
    }
}

/// The interval set is the one asked for unless vsync is forced, in which
/// case it is one whatever was asked for.
pub proof fn lemma_swap_interval_respects_request(requested: i32, other: i32)
    ensures
        spec_swap_interval(false, requested) == requested,
        spec_swap_interval(true, requested) == 1,
        spec_swap_interval(true, requested) == spec_swap_interval(true, other),
        requested != other ==> spec_swap_interval(false, requested) != spec_swap_interval(
            false,
            other,
        ),
{
}

/// The call that sets the swap interval asked for on `display`.
pub fn gl_swap_interval(env: &Environ, display: u64, requested: i32) -> (r: EglCall)
    ensures
        r == (EglCall::SwapInterval {
            display,
            interval: spec_swap_interval(env.force_vsync, requested),
        }),
        !env.force_vsync ==> r == (EglCall::SwapInterval { display, interval: requested }),
        env.force_vsync ==> r == (EglCall::SwapInterval { display, interval: 1 }),
{
    let mut interval = requested;
    if env.force_vsync {
        interval = 1;
    }
    EglCall::SwapInterval { display, interval }
}

/// Moves the main window to the native window that Java handed over, which
/// must exist when there is a main window: the main window is marked to take
/// a new native window before its next frame. Without a main window nothing
/// changes. Answers whether there was one.
pub fn gl_setup_window(env: &Environ, main_window: &mut GLRenderWindow) -> (r: bool)
    requires
        env.main_window_bundle is Some ==> env.pojav_window is Some,
    ensures
        r == env.main_window_bundle is Some,
        r ==> *final(main_window) == (GLRenderWindow {
            state: STATE_RENDERER_NEW_WINDOW,
            new_native_surface: env.pojav_window,
            ..*old(main_window)
        }),
        !r ==> *final(main_window) == *old(main_window),
{
    if env.main_window_bundle.is_some() {
        main_window.state = STATE_RENDERER_NEW_WINDOW;
        main_window.new_native_surface = env.pojav_window;
        true
    } else {
        false
    }
}

/// The queries for the size of the current window's surface: none when no
/// window is current, else its width, then its height.
pub fn dimension_queries(display: u64, current: Option<&GLRenderWindow>) -> (r: Vec<EglCall>)
    ensures
        current is None ==> r@.len() == 0,
        current matches Some(w) ==> r@ == seq![
            EglCall::QuerySurface { display, surface: w.surface, attribute: EGL_WIDTH },
            EglCall::QuerySurface { display, surface: w.surface, attribute: EGL_HEIGHT },
        ],
{
    match current {
        None => Vec::new(),
        Some(w) => {
            let calls = vec![
                EglCall::QuerySurface { display, surface: w.surface, attribute: EGL_WIDTH },
                EglCall::QuerySurface { display, surface: w.surface, attribute: EGL_HEIGHT },
            ];
            assert(calls@ =~= seq![
                EglCall::QuerySurface { display, surface: w.surface, attribute: EGL_WIDTH },
                EglCall::QuerySurface { display, surface: w.surface, attribute: EGL_HEIGHT },
            ]);
            calls
        },
    }
}

/// The display size reported for the replies to the size queries: zero by
/// zero without a current window or when either query failed, else the two
/// values read.
pub open spec fn spec_display_dimensions(replies: Seq<EglReply>) -> (i32, i32) {
    if replies.len() == 2 && replies[0].status == EGL_TRUE && replies[1].status == EGL_TRUE {
        (replies[0].value, replies[1].value)
    } else {
        (0, 0)
    }
}

/// The display size for the replies to `dimension_queries`.
pub fn gl4esi_get_display_dimensions(replies: &Vec<EglReply>) -> (r: (i32, i32))
    ensures
        r == spec_display_dimensions(replies@),
{
    if replies.len() == 2 && replies[0].status == EGL_TRUE && replies[1].status == EGL_TRUE {
        (replies[0].value, replies[1].value)
    } else {
        (0, 0)
    }
}

/// The calls that tear the bridge down: release the current context, destroy
/// the (null) surface and context, terminate the (null) display and release
/// the thread's EGL state.
pub open spec fn spec_termination_calls() -> Seq<EglCall> {
    seq![
        spec_release_current(NO_HANDLE),
        EglCall::DestroySurface { display: NO_HANDLE, surface: NO_HANDLE },
        EglCall::DestroyContext { display: NO_HANDLE, context: NO_HANDLE },
        EglCall::Terminate { display: NO_HANDLE },
        EglCall::ReleaseThread,
    ]
}

/// The calls that tear the bridge down.
pub fn ponev_terminate() -> (r: Vec<EglCall>)
    ensures
        r@ == spec_termination_calls(),
{
    let calls = vec![
        release_current(NO_HANDLE),
        EglCall::DestroySurface { display: NO_HANDLE, surface: NO_HANDLE },
        EglCall::DestroyContext { display: NO_HANDLE, context: NO_HANDLE },
        EglCall::Terminate { display: NO_HANDLE },
        EglCall::ReleaseThread,
    ];
    assert(calls@ =~= spec_termination_calls());
    calls
}

/// Records the size of the native window that Java handed over, which must
/// exist, and gives the call that sizes its buffers to it.
pub fn ponev_init_window(env: &mut Environ, width: i32, height: i32) -> (r: EglCall)
    requires
        old(env).pojav_window is Some,
    ensures
        *final(env) == (Environ { saved_width: width, saved_height: height, ..*old(env) }),
        r == (EglCall::SetBuffersGeometry {
            window: old(env).pojav_window->0,
            width,
            height,
            format: AHARDWAREBUFFER_FORMAT_R8G8B8X8_UNORM,
        }),
{
    env.record_window_size(width, height);
    EglCall::SetBuffersGeometry {
        window: env.pojav_window.unwrap(),
        width,
        height,
        format: AHARDWAREBUFFER_FORMAT_R8G8B8X8_UNORM,
    }
}

/// The hint setter that the windowing library expects; window hints have no
/// effect on this bridge.
pub fn ponev_set_window_hint(hint: i32, value: i32) {
}

} // verus!
