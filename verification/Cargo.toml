[package]
name = "surface_texture_glium"
version = "0.1.0"
edition = "2021"
publish = false

[dependencies]
glium = { version = "=0.36.0", default-features = false }
jni = "=0.21.1"
lazy_static = "=1.5.1"
libc = "=0.2.191"
log = "=0.4.34"
ndk = { version = "=0.9.0", features = ["api-level-28", "test"] }
