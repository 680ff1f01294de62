# ponev_jni

The native bridge of the Ponev launcher for Android: the JNI entry
points that Java calls, the EGL/OpenGL ES renderer bridge that the game's
windowing library drives, and the launcher of the JVM.

- `src/` is the verified library. It holds the bridge's decisions over
  plain values: EGL handles are integers, and each EGL operation
  (`gl_init`, `gl_init_context`, `gl_make_current`, `gl_swap_buffers`) is a
  state machine that asks for batches of EGL calls and is handed back the
  reply of the last one. It also holds the JNI symbol naming, the bridge
  table, the process-wide state, the launcher's signal and exit decisions,
  and the decimal parsing and printing that the settings and messages use.
- `app/` is the Android side: loading `libEGL.so` and `libjli.so`, making the
  EGL and native-window calls that the library asks for, the JNI exports, the
  signal-watching threads, and the `#[jni(..)]` export as a token
  transformation.
- `tests/` run the library on concrete values.
