[package]
name = "livekit_media"
version = "0.1.0"
edition = "2021"
publish = false

[dependencies]
cxx = "=1.0.205"
livekit-protocol = "=0.8.2"
webrtc-sys = "=0.3.51"
prost = "=0.14.4"
tokio = { version = "=1.54.1", features = ["rt", "macros"] }
futures = "=0.3.34"
parking_lot = "=0.12.5"
wgpu = "=0.16.3"
egui = "=0.22.0"
egui-wgpu = "=0.22.0"
