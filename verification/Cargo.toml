[package]
name = "ponev_jni"
version = "0.1.0"
edition = "2021"
publish = false

[dependencies]
jni = "0.21"
libloading = "0.8"
libc = "0.2"
nix = { version = "0.29", features = ["signal"] }
signal-hook = "0.3"
ndk-sys = "0.6"
egli = "*"
syn = { version = "2", features = ["full"] }
quote = "1"
proc-macro2 = "1"
