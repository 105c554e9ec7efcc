[package]
name = "ac_ffmpeg"
version = "0.1.0"
edition = "2021"
publish = false

[dependencies]
cfg-if = "1"
lazy_static = "1"
libc = "0.2"
pkg-config = "0.3"
vcpkg = "0.2"
