//! The verified core of the Ponev launcher's native bridge: the decisions of
//! the EGL/GL bridge, the JVM launcher and the JNI entry points, over plain
//! values.

pub mod decimal;
pub mod jni_export;
pub mod egl;
pub mod render_window;
pub mod text;
pub mod environ;
pub mod bridge_tbl;
pub mod gl_bridge;
pub mod launcher;
pub mod jni_env;
