//! A GL render window: its EGL configuration, context and surface, and the
//! native windows it draws to; and how its surface is replaced when the native
//! window changes.

use vstd::prelude::*;
use crate::egl::{AttribList, EglCall};

verus! {

/// The renderer draws to its current surface.
pub const STATE_RENDERER_ALIVE: i8 = 0;

/// The renderer must move to a new native window before its next frame.
pub const STATE_RENDERER_NEW_WINDOW: i8 = 1;

/// A render window. Handles are plain integers, `0` being the null handle.
#[derive(PartialEq, Eq, Structural, Clone, Copy, Debug)]
pub struct GLRenderWindow {
    pub state: i8,
    pub native_surface: Option<u64>,
    pub new_native_surface: Option<u64>,
    pub config: u64,
    pub format: i32,
    pub context: u64,
    pub surface: u64,
}

impl GLRenderWindow {
    /// A window with the given fields.
    pub fn new(
        state: i8,
        native_surface: Option<u64>,
        new_native_surface: Option<u64>,
        config: u64,
        format: i32,
        context: u64,
        surface: u64,
    ) -> (r: Self)
        ensures
            r == (GLRenderWindow {
                state,
                native_surface,
                new_native_surface,
                config,
                format,
                context,
                surface,
            }),
    {
        GLRenderWindow {
            state,
            native_surface,
            new_native_surface,
            config,
            format,
            context,
            surface,
        }
    }
}

/// The calls that replace the surface of `w` on `display`, in order: release
/// the native window in use, destroy the current surface, then either take
/// the pending native window (acquire it, size its buffers from the window
/// itself, and create a window surface on it) or, with none pending, create
/// a 1x1 pbuffer surface. The last call creates the new surface.
pub open spec fn spec_swap_surface_calls(w: GLRenderWindow, display: u64) -> Seq<EglCall> {
    let release = match w.native_surface {
        Some(n) => seq![EglCall::ReleaseWindow { window: n }],
        None => Seq::empty(),
    };
    let destroy = if w.surface != 0 {
        seq![EglCall::DestroySurface { display, surface: w.surface }]
    } else {
        Seq::empty()
    };
    let create = match w.new_native_surface {
        Some(h) => seq![
            EglCall::AcquireWindow { window: h },
            EglCall::SetBuffersGeometry { window: h, width: 0, height: 0, format: w.format },
            EglCall::CreateWindowSurface { display, config: w.config, window: h },
        ],
        None => seq![
            EglCall::CreatePbufferSurface { display, config: w.config, attributes: AttribList::Pbuffer },
        ],
    };
    release + destroy + create
}

/// The window once its surface has been replaced by `created`: the pending
/// native window, if any, becomes the one in use, and none is pending.
pub open spec fn spec_after_swap_surface(w: GLRenderWindow, created: u64) -> GLRenderWindow {
    GLRenderWindow {
        native_surface: w.new_native_surface,
        new_native_surface: None,
        surface: created,
        ..w
    }
}

/// The calls that replace the surface of `w`.
pub fn swap_surface_calls(w: &GLRenderWindow, display: u64) -> (r: Vec<EglCall>)
    ensures
        r@ == spec_swap_surface_calls(*w, display),
        r@.len() > 0,
        r@.contains(EglCall::DestroySurface { display, surface: w.surface }) <==> w.surface != 0,
{
    let mut calls: Vec<EglCall> = Vec::new();
    if let Some(n) = w.native_surface {
        calls.push(EglCall::ReleaseWindow { window: n });
    }
    if w.surface != 0 {
        calls.push(EglCall::DestroySurface { display, surface: w.surface });
    }
    match w.new_native_surface {
        Some(h) => {
            calls.push(EglCall::AcquireWindow { window: h });
            calls.push(
                EglCall::SetBuffersGeometry { window: h, width: 0, height: 0, format: w.format },
            );
            calls.push(EglCall::CreateWindowSurface { display, config: w.config, window: h });
        },
        None => {
            calls.push(
                EglCall::CreatePbufferSurface {
                    display,
                    config: w.config,
                    attributes: AttribList::Pbuffer,
                },
            );
        },
    }
    assert(calls@ =~= spec_swap_surface_calls(*w, display));
    proof {
        lemma_swap_surface_destroys_old_surface(*w, display);
    }
    calls
}

/// Records that the surface of `w` was replaced by `created`.
pub fn finish_swap_surface(w: &mut GLRenderWindow, created: u64)
    ensures
        *final(w) == spec_after_swap_surface(*old(w), created),
{
    w.native_surface = w.new_native_surface;
    w.new_native_surface = None;
    w.surface = created;
}

/// The native windows that a run of calls releases, in order.
pub open spec fn released_windows(calls: Seq<EglCall>) -> Seq<u64>
    decreases calls.len(),
{
    if calls.len() == 0 {
        Seq::empty()
    } else {
        let rest = released_windows(calls.drop_last());
        match calls.last() {
            EglCall::ReleaseWindow { window } => rest.push(window),
            _ => rest,
        }
    }
}

/// The native windows that a run of calls acquires, in order.
pub open spec fn acquired_windows(calls: Seq<EglCall>) -> Seq<u64>
    decreases calls.len(),
{
    if calls.len() == 0 {
        Seq::empty()
    } else {
        let rest = acquired_windows(calls.drop_last());
        match calls.last() {
            EglCall::AcquireWindow { window } => rest.push(window),
            _ => rest,
        }
    }
}

/// The windows held as an optional handle, as a sequence of at most one.
pub open spec fn held(w: Option<u64>) -> Seq<u64> {
    match w {
        Some(h) => seq![h],
        None => Seq::empty(),
    }
}

proof fn lemma_windows_concat(a: Seq<EglCall>, b: Seq<EglCall>)
    ensures
        released_windows(a + b) == released_windows(a) + released_windows(b),
        acquired_windows(a + b) == acquired_windows(a) + acquired_windows(b),
    decreases b.len(),
{
    if b.len() == 0 {
        assert(a + b =~= a);
        assert(released_windows(a) + released_windows(b) =~= released_windows(a));
        assert(acquired_windows(a) + acquired_windows(b) =~= acquired_windows(a));
    } else {
        lemma_windows_concat(a, b.drop_last());
        assert((a + b).drop_last() =~= a + b.drop_last());
        assert((a + b).last() == b.last());
        assert(released_windows(a) + released_windows(b.drop_last()).push(b.last()->ReleaseWindow_window)
            =~= (released_windows(a) + released_windows(b.drop_last())).push(b.last()->ReleaseWindow_window));
        assert(acquired_windows(a) + acquired_windows(b.drop_last()).push(b.last()->AcquireWindow_window)
            =~= (acquired_windows(a) + acquired_windows(b.drop_last())).push(b.last()->AcquireWindow_window));
    }
}

proof fn lemma_windows_single(c: EglCall)
    ensures
        released_windows(seq![c]) == match c {
            EglCall::ReleaseWindow { window } => seq![window],
            _ => Seq::<u64>::empty(),
        },
        acquired_windows(seq![c]) == match c {
            EglCall::AcquireWindow { window } => seq![window],
            _ => Seq::<u64>::empty(),
        },
{
    assert(seq![c].drop_last() =~= Seq::<EglCall>::empty());
    assert(released_windows(Seq::<EglCall>::empty()) == Seq::<u64>::empty());
    assert(acquired_windows(Seq::<EglCall>::empty()) == Seq::<u64>::empty());
    assert(Seq::<u64>::empty().push(c->ReleaseWindow_window) =~= seq![c->ReleaseWindow_window]);
    assert(Seq::<u64>::empty().push(c->AcquireWindow_window) =~= seq![c->AcquireWindow_window]);
}

/// A surface swap keeps the native windows balanced: it releases the window
/// in use exactly once if there is one, acquires the pending window exactly
/// once if there is one, and the pending window becomes the one in use, with
/// none pending. So a window that held one acquired reference to the window
/// in use holds one to the window in use afterwards.
pub proof fn lemma_swap_surface_window_balance(w: GLRenderWindow, display: u64, created: u64)
    ensures
        released_windows(spec_swap_surface_calls(w, display)) == held(w.native_surface),
        acquired_windows(spec_swap_surface_calls(w, display)) == held(w.new_native_surface),
        spec_after_swap_surface(w, created).native_surface == w.new_native_surface,
        spec_after_swap_surface(w, created).new_native_surface is None,
{
    let release = match w.native_surface {
        Some(n) => seq![EglCall::ReleaseWindow { window: n }],
        None => Seq::<EglCall>::empty(),
    };
    let destroy = if w.surface != 0 {
        seq![EglCall::DestroySurface { display, surface: w.surface }]
    } else {
        Seq::<EglCall>::empty()
    };
    let create = match w.new_native_surface {
        Some(h) => seq![
            EglCall::AcquireWindow { window: h },
            EglCall::SetBuffersGeometry { window: h, width: 0, height: 0, format: w.format },
            EglCall::CreateWindowSurface { display, config: w.config, window: h },
        ],
        None => seq![
            EglCall::CreatePbufferSurface { display, config: w.config, attributes: AttribList::Pbuffer },
        ],
    };
    assert(spec_swap_surface_calls(w, display) == release + destroy + create);
    lemma_windows_concat(release + destroy, create);
    lemma_windows_concat(release, destroy);
    assert(released_windows(Seq::<EglCall>::empty()) == Seq::<u64>::empty());
    assert(acquired_windows(Seq::<EglCall>::empty()) == Seq::<u64>::empty());
    match w.native_surface {
        Some(n) => lemma_windows_single(EglCall::ReleaseWindow { window: n }),
        None => {},
    }
    if w.surface != 0 {
        lemma_windows_single(EglCall::DestroySurface { display, surface: w.surface });
    }
    match w.new_native_surface {
        Some(h) => {
            let a = EglCall::AcquireWindow { window: h };
            let g = EglCall::SetBuffersGeometry { window: h, width: 0, height: 0, format: w.format };
            let c = EglCall::CreateWindowSurface { display, config: w.config, window: h };
            assert(create =~= seq![a] + seq![g] + seq![c]);
            lemma_windows_concat(seq![a] + seq![g], seq![c]);
            lemma_windows_concat(seq![a], seq![g]);
            lemma_windows_single(a);
            lemma_windows_single(g);
            lemma_windows_single(c);
        },
        None => {
            lemma_windows_single(
                EglCall::CreatePbufferSurface { display, config: w.config, attributes: AttribList::Pbuffer },
            );
        },
    }
    assert(released_windows(spec_swap_surface_calls(w, display)) =~= held(w.native_surface));
    assert(acquired_windows(spec_swap_surface_calls(w, display)) =~= held(w.new_native_surface));
}

/// A surface swap destroys the current surface exactly when it is not null,
/// whatever native windows are in use or pending; it destroys no other
/// surface, does so right after releasing the native window in use (first
/// when there is none), and ends by creating the new surface: a window
/// surface on the pending native window, acquired and sized from the window
/// with the window's format first, or else a 1x1 pbuffer.
pub proof fn lemma_swap_surface_destroys_old_surface(w: GLRenderWindow, display: u64)
    ensures
        ({
            let calls = spec_swap_surface_calls(w, display);
            let destroy = EglCall::DestroySurface { display, surface: w.surface };
            let at = if w.native_surface is Some { 1int } else { 0int };
            &&& calls.contains(destroy) <==> w.surface != 0
            &&& forall|i: int|
                0 <= i < calls.len() && (#[trigger] calls[i] is DestroySurface) ==> calls[i]
                    == destroy
            &&& w.surface != 0 ==> calls[at] == destroy
            &&& (w.native_surface matches Some(n) ==> calls[0] == (EglCall::ReleaseWindow {
                window: n,
            }))
            &&& (w.new_native_surface matches Some(h) ==> {
                &&& calls.len() >= 3
                &&& calls[calls.len() - 3] == (EglCall::AcquireWindow { window: h })
                &&& calls[calls.len() - 2] == (EglCall::SetBuffersGeometry {
                    window: h,
                    width: 0,
                    height: 0,
                    format: w.format,
                })
                &&& calls.last() == (EglCall::CreateWindowSurface {
                    display,
                    config: w.config,
                    window: h,
                })
            })
            &&& (w.new_native_surface is None ==> calls.last() == (
            EglCall::CreatePbufferSurface {
                display,
                config: w.config,
                attributes: AttribList::Pbuffer,
            }))
        }),
{
    let release = match w.native_surface {
        Some(n) => seq![EglCall::ReleaseWindow { window: n }],
        None => Seq::<EglCall>::empty(),
    };
    let destroy_part = if w.surface != 0 {
        seq![EglCall::DestroySurface { display, surface: w.surface }]
    } else {
        Seq::<EglCall>::empty()
    };
    let create = match w.new_native_surface {
        Some(h) => seq![
            EglCall::AcquireWindow { window: h },
            EglCall::SetBuffersGeometry { window: h, width: 0, height: 0, format: w.format },
            EglCall::CreateWindowSurface { display, config: w.config, window: h },
        ],
        None => seq![
            EglCall::CreatePbufferSurface { display, config: w.config, attributes: AttribList::Pbuffer },
        ],
    };
    let calls = spec_swap_surface_calls(w, display);
    let destroy = EglCall::DestroySurface { display, surface: w.surface };
    assert(calls == release + destroy_part + create);
    let rl = release.len() as int;
    let dl = destroy_part.len() as int;
    assert forall|i: int| 0 <= i < calls.len() implies (#[trigger] calls[i] is DestroySurface ==> calls[i]
        == destroy) && (i < rl ==> calls[i] == release[i]) && (rl <= i < rl + dl ==> calls[i]
        == destroy_part[i - rl]) && (rl + dl <= i ==> calls[i] == create[i - rl - dl]) by {
        if i < rl {
            assert(calls[i] == release[i]);
        } else if i < rl + dl {
            assert(calls[i] == destroy_part[i - rl]);
        } else {
            assert(calls[i] == create[i - rl - dl]);
        }
    }
    if w.surface != 0 {
        let at = if w.native_surface is Some { 1int } else { 0int };
        assert(calls[at] == destroy);
    } else {
        assert forall|i: int| 0 <= i < calls.len() implies calls[i] != destroy by {
            if calls[i] == destroy {
                assert(calls[i] is DestroySurface);
            }
        }
    }
}

/// After one surface swap no native window is pending, so the next swap
/// releases the window that the first took (if it took one), destroys the
/// surface that the first created (if not null), and ends on a pbuffer.
pub proof fn lemma_second_swap_falls_back_to_pbuffer(
    w: GLRenderWindow,
    display: u64,
    created: u64,
)
    ensures
        ({
            let after = spec_after_swap_surface(w, created);
            let calls = spec_swap_surface_calls(after, display);
            &&& after.new_native_surface is None
            &&& calls.last() == (EglCall::CreatePbufferSurface {
                display,
                config: w.config,
                attributes: AttribList::Pbuffer,
            })
            &&& (w.new_native_surface matches Some(h) ==> calls[0] == (EglCall::ReleaseWindow {
                window: h,
            }))
            &&& (w.new_native_surface is None && created != 0) ==> calls[0] == (
            EglCall::DestroySurface { display, surface: created })
        }),
{
}

} // verus!
