[package]
name = "libnice"
version = "0.1.0"
edition = "2021"
publish = false

[dependencies]
futures = "=0.3.34"
glib = "0.10"
libc = "=0.2.191"
libnice-sys = "=0.4.0"
webrtc-sdp = "=0.3.16"
winapi = "=0.3.9"
