[package]
name = "wgpu_core"
version = "0.1.0"
edition = "2021"
publish = false

[dependencies]
arrayvec = "0.5"
gfx-descriptor = "0.2"
gfx-hal = "0.6"
log = "0.4"
naga = "0.2"
serde = { version = "1", features = ["derive"] }
spirv_headers = "1.5"
thiserror = "1"
wgpu-types = "0.6"
