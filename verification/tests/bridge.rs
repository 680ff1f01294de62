use ponev_jni::bridge_tbl::{
    br_get_current, br_init, br_init_context, br_make_current, br_setup_window, br_swap_buffers,
    br_swap_interval, set_gl_bridge_tbl, BridgeBackend, BridgeTable,
};
use ponev_jni::egl::{attrib_values, AttribList, EglCall, EglReply, GlError, EGL_BAD_SURFACE, EGL_TRUE};
use ponev_jni::environ::Environ;
use ponev_jni::gl_bridge::{
    current_after, dimension_queries, gl4esi_get_display_dimensions, gl_init, gl_init_context,
    gl_make_current, gl_setup_window, gl_swap_buffers, gl_swap_interval, gles_client_version,
    parse_gles_version, ponev_init_window, ponev_set_window_hint, ponev_terminate, renderer_api,
    share_context, ContextPhase, InitPhase, MakeCurrentOutcome, MakeCurrentPhase, SwapOutcome,
    SwapPhase,
};
use ponev_jni::render_window::{finish_swap_surface, swap_surface_calls, GLRenderWindow};

fn reply(status: u32, handle: u64, value: i32) -> EglReply {
    EglReply { status, handle, value }
}

fn window(state: i8, native: Option<u64>, new_native: Option<u64>, surface: u64) -> GLRenderWindow {
    GLRenderWindow::new(state, native, new_native, 0xC0, 3, 0xC7, surface)
}

#[test]
fn bridge_table_is_filled_once() {
    let mut t = BridgeTable::new();
    set_gl_bridge_tbl(&mut t);
    let once = t;
    set_gl_bridge_tbl(&mut t);
    assert_eq!(t, once);
    assert_eq!(br_init(&t), BridgeBackend::Gl);
    assert_eq!(br_init_context(&t), BridgeBackend::Gl);
    assert_eq!(br_make_current(&t), BridgeBackend::Gl);
    assert_eq!(br_get_current(&t), BridgeBackend::Gl);
    assert_eq!(br_swap_buffers(&t), BridgeBackend::Gl);
    assert_eq!(br_setup_window(&t), BridgeBackend::Gl);
    assert_eq!(br_swap_interval(&t), BridgeBackend::Gl);
}

#[test]
fn config_attributes_are_exact() {
    assert_eq!(
        attrib_values(AttribList::Config),
        vec![0x3022, 8, 0x3023, 8, 0x3024, 8, 0x3021, 8, 0x3025, 24, 0x3033, 5, 0x3040, 4, 0x3038]
    );
    assert_eq!(attrib_values(AttribList::Context { client_version: 3 }), vec![0x3098, 3, 0x3038]);
    assert_eq!(attrib_values(AttribList::Pbuffer), vec![0x3057, 1, 0x3056, 1, 0x3038]);
}

#[test]
fn error_messages() {
    assert_eq!(GlError::NoDisplay.message(), "eglGetDisplay(EGL_DEFAULT_DISPLAY) returned EGL_NO_DISPLAY");
    assert_eq!(GlError::InitializeFailed(12289).message(), "eglInitialize_p() failed: 12289");
    assert_eq!(GlError::ChooseConfigFailed(-4).message(), "eglChooseConfig() failed: -4");
    assert_eq!(GlError::NoMatchingConfig.message(), "eglChooseConfig() found no matching config");
    assert_eq!(
        GlError::CreateContextFailed(0x3005).message(),
        "eglCreateContext() finished with error: 12293"
    );
}

#[test]
fn gl_init_null_display_fails() {
    let (mut m, calls) = gl_init();
    assert_eq!(calls, vec![EglCall::GetDisplay]);
    assert!(m.step(reply(0, 0, 0)).is_empty());
    assert!(matches!(m.phase, InitPhase::Done(Err(GlError::NoDisplay))));
    assert_eq!(m.display, 0);
}

#[test]
fn gl_init_succeeds_and_fails() {
    let (mut m, _) = gl_init();
    assert_eq!(m.step(reply(0, 0xD1, 0)), vec![EglCall::Initialize { display: 0xD1 }]);
    assert!(m.step(reply(EGL_TRUE, 0, 0)).is_empty());
    assert!(matches!(m.phase, InitPhase::Done(Ok(()))));
    assert_eq!(m.display, 0xD1);

    let (mut m, _) = gl_init();
    m.step(reply(0, 0xD1, 0));
    assert_eq!(m.step(reply(0, 0, 0)), vec![EglCall::GetError]);
    assert!(m.step(reply(0, 0, 0x3001)).is_empty());
    assert!(matches!(m.phase, InitPhase::Done(Err(GlError::InitializeFailed(0x3001)))));
}

#[test]
fn gl_init_context_outcomes() {
    let share = window(0, None, None, 0);
    let (mut m, calls) = gl_init_context(0xD1, Some(&share));
    assert_eq!(m.share_context, 0xC7);
    assert_eq!(
        calls,
        vec![EglCall::ChooseConfig { display: 0xD1, attributes: AttribList::Config, config_size: 0 }]
    );
    assert!(m.step(reply(EGL_TRUE, 0, 0)).is_empty());
    assert!(matches!(m.phase, ContextPhase::Done(Err(GlError::NoMatchingConfig))));

    let (mut m, _) = gl_init_context(0xD1, None);
    assert_eq!(m.share_context, 0);
    assert_eq!(m.step(reply(0, 0, 0)), vec![EglCall::GetError]);
    m.step(reply(0, 0, 0x300C));
    assert!(matches!(m.phase, ContextPhase::Done(Err(GlError::ChooseConfigFailed(0x300C)))));
}

#[test]
fn renderer_and_version_settings() {
    assert_eq!(renderer_api("opengles3_desktopgl"), 0x30A2);
    assert_eq!(renderer_api("opengles2"), 0x30A0);
    assert_eq!(renderer_api(""), 0x30A0);
    assert_eq!(gles_client_version(3), 3);
    assert_eq!(gles_client_version(0), 0);
    assert_eq!(gles_client_version(32767), 32767);
    assert_eq!(gles_client_version(32768), 2);
    assert_eq!(gles_client_version(-1), 2);
    assert_eq!(parse_gles_version("3"), Some(3));
    assert_eq!(parse_gles_version("40000"), Some(2));
    assert_eq!(parse_gles_version("x"), None);
    let w = window(0, None, None, 0);
    assert_eq!(share_context(Some(&w)), 0xC7);
    assert_eq!(share_context(None), 0);
}

#[test]
fn swap_surface_takes_pending_window() {
    let w = window(0, Some(0xA1), Some(0xA2), 0x51);
    assert_eq!(
        swap_surface_calls(&w, 0xD1),
        vec![
            EglCall::ReleaseWindow { window: 0xA1 },
            EglCall::DestroySurface { display: 0xD1, surface: 0x51 },
            EglCall::AcquireWindow { window: 0xA2 },
            EglCall::SetBuffersGeometry { window: 0xA2, width: 0, height: 0, format: 3 },
            EglCall::CreateWindowSurface { display: 0xD1, config: 0xC0, window: 0xA2 },
        ]
    );
    let mut w2 = w;
    finish_swap_surface(&mut w2, 0x52);
    assert_eq!(w2.native_surface, Some(0xA2));
    assert_eq!(w2.new_native_surface, None);
    assert_eq!(w2.surface, 0x52);
    // a second swap has no pending window and ends on a pbuffer
    assert_eq!(
        swap_surface_calls(&w2, 0xD1),
        vec![
            EglCall::ReleaseWindow { window: 0xA2 },
            EglCall::DestroySurface { display: 0xD1, surface: 0x52 },
            EglCall::CreatePbufferSurface { display: 0xD1, config: 0xC0, attributes: AttribList::Pbuffer },
        ]
    );
}

#[test]
fn make_current_release() {
    let env = Environ::default();
    let (mut m, calls) = gl_make_current(0xD1, None, &env);
    assert_eq!(calls, vec![EglCall::MakeCurrent { display: 0xD1, draw: 0, read: 0, context: 0 }]);
    m.step(reply(EGL_TRUE, 0, 0));
    assert!(matches!(m.phase, MakeCurrentPhase::Done(MakeCurrentOutcome::Released)));
    assert_eq!(current_after(Some(5), MakeCurrentOutcome::Released), None);
    assert_eq!(current_after(Some(5), MakeCurrentOutcome::ReleaseFailed), Some(5));
}

#[test]
fn make_current_takes_main_window_and_binds() {
    let mut env = Environ::default();
    env.set_window(0xA9);
    let w = window(0, None, None, 0x53);
    let (mut m, calls) = gl_make_current(0xD1, Some(w), &env);
    assert!(m.has_set_main_window);
    assert_eq!(m.window.unwrap().new_native_surface, Some(0xA9));
    assert_eq!(calls, vec![EglCall::MakeCurrent { display: 0xD1, draw: 0x53, read: 0x53, context: 0xC7 }]);
    assert!(m.step(reply(EGL_TRUE, 0, 0)).is_empty());
    assert!(matches!(m.phase, MakeCurrentPhase::Done(MakeCurrentOutcome::Made)));
    assert_eq!(current_after(Some(1), MakeCurrentOutcome::Made), None);
}

#[test]
fn make_current_failure_with_registered_main_window() {
    let mut env = Environ::default();
    env.main_window_bundle = Some(0x77);
    let w = window(0, None, Some(0xA3), 0x50);
    let (mut m, calls) = gl_make_current(0xD1, Some(w), &env);
    assert!(!m.has_set_main_window);
    assert_eq!(m.window, Some(w));
    assert_eq!(calls, vec![EglCall::MakeCurrent { display: 0xD1, draw: 0x50, read: 0x50, context: 0xC7 }]);
    assert_eq!(m.step(reply(0, 0, 0)), vec![EglCall::GetError]);
    m.step(reply(0, 0, 0x3002));
    assert!(matches!(m.phase, MakeCurrentPhase::Done(MakeCurrentOutcome::Failed(0x3002))));
    assert_eq!(current_after(Some(9), MakeCurrentOutcome::Failed(0x3002)), Some(9));
}

#[test]
fn swap_buffers_presents() {
    let (mut m, calls) = gl_swap_buffers(0xD1, window(0, None, None, 0x50));
    assert_eq!(calls, vec![EglCall::SwapBuffers { display: 0xD1, surface: 0x50 }]);
    m.step(reply(EGL_TRUE, 0, 0));
    assert!(matches!(m.phase, SwapPhase::Done(SwapOutcome::Presented)));

    let (m, calls) = gl_swap_buffers(0xD1, window(0, None, None, 0));
    assert!(calls.is_empty());
    assert!(matches!(m.phase, SwapPhase::Done(SwapOutcome::NoSurface)));
}

#[test]
fn swap_buffers_reports_failure() {
    let w = window(0, Some(0xA1), Some(0xA2), 0x50);
    let (mut m, _) = gl_swap_buffers(0xD1, w);
    assert_eq!(m.step(reply(0, 0, 0)), vec![EglCall::GetError]);
    assert!(m.step(reply(0, 0, 0x3003)).is_empty());
    assert!(matches!(m.phase, SwapPhase::Done(SwapOutcome::SwapFailed(0x3003))));
    assert_eq!(m.window, w);
}

#[test]
fn swap_interval_and_setup_window() {
    let mut env = Environ::default();
    assert_eq!(gl_swap_interval(&env, 0xD1, 0), EglCall::SwapInterval { display: 0xD1, interval: 0 });
    env.set_force_vsync("true");
    assert!(env.force_vsync);
    assert_eq!(gl_swap_interval(&env, 0xD1, 0), EglCall::SwapInterval { display: 0xD1, interval: 1 });
    env.set_force_vsync("false");
    assert!(!env.force_vsync);

    let mut main = window(0, None, None, 0x50);
    assert!(!gl_setup_window(&env, &mut main));
    assert_eq!(main, window(0, None, None, 0x50));
    env.set_window(0xA5);
    env.main_window_bundle = Some(1);
    assert!(gl_setup_window(&env, &mut main));
    assert_eq!(main.state, 1);
    assert_eq!(main.new_native_surface, Some(0xA5));
}

#[test]
fn display_dimensions() {
    let w = window(0, None, None, 0x50);
    assert_eq!(
        dimension_queries(0xD1, Some(&w)),
        vec![
            EglCall::QuerySurface { display: 0xD1, surface: 0x50, attribute: 0x3057 },
            EglCall::QuerySurface { display: 0xD1, surface: 0x50, attribute: 0x3056 },
        ]
    );
    assert!(dimension_queries(0xD1, None).is_empty());
    assert_eq!(gl4esi_get_display_dimensions(&vec![]), (0, 0));
    assert_eq!(gl4esi_get_display_dimensions(&vec![reply(1, 0, 1280), reply(1, 0, 720)]), (1280, 720));
    assert_eq!(gl4esi_get_display_dimensions(&vec![reply(0, 0, 1280), reply(1, 0, 720)]), (0, 0));
    assert_eq!(gl4esi_get_display_dimensions(&vec![reply(1, 0, 1280), reply(0, 0, 720)]), (0, 0));
}

#[test]
fn environ_window_handover() {
    let mut env = Environ::default();
    assert_eq!(env.pojav_window, None);
    env.set_window(0xAB);
    let call = ponev_init_window(&mut env, 1920, 1080);
    assert_eq!(call, EglCall::SetBuffersGeometry { window: 0xAB, width: 1920, height: 1080, format: 2 });
    assert_eq!((env.saved_width, env.saved_height), (1920, 1080));
    assert_eq!(env.take_window(), 0xAB);
    assert_eq!(env.pojav_window, None);
    ponev_set_window_hint(1, 2);
}

#[test]
fn termination_sequence() {
    assert_eq!(
        ponev_terminate(),
        vec![
            EglCall::MakeCurrent { display: 0, draw: 0, read: 0, context: 0 },
            EglCall::DestroySurface { display: 0, surface: 0 },
            EglCall::DestroyContext { display: 0, context: 0 },
            EglCall::Terminate { display: 0 },
            EglCall::ReleaseThread,
        ]
    );
}

#[test]
fn error_code_reads_back_from_message() {
    for code in [0x3001, -77, 0, i32::MIN] {
        let message = GlError::InitializeFailed(code).message();
        let digits = message.strip_prefix("eglInitialize_p() failed: ").unwrap();
        assert_eq!(ponev_jni::decimal::parse_i32(digits), Some(code));
    }
}

#[test]
fn swap_surface_keeps_windows_balanced() {
    for (native, pending) in [(Some(0xA1), Some(0xA2)), (Some(0xA1), None), (None, Some(0xA2)), (None, None)] {
        let w = window(0, native, pending, 0x50);
        let calls = swap_surface_calls(&w, 0xD1);
        let released: Vec<u64> = calls
            .iter()
            .filter_map(|c| match c { EglCall::ReleaseWindow { window } => Some(*window), _ => None })
            .collect();
        let acquired: Vec<u64> = calls
            .iter()
            .filter_map(|c| match c { EglCall::AcquireWindow { window } => Some(*window), _ => None })
            .collect();
        assert_eq!(released, native.into_iter().collect::<Vec<_>>());
        assert_eq!(acquired, pending.into_iter().collect::<Vec<_>>());
        let mut after = w;
        finish_swap_surface(&mut after, 0x70);
        assert_eq!(after.native_surface, pending);
        assert_eq!(after.new_native_surface, None);
    }
}
