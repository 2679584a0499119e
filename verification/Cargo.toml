[package]
name = "wtensor"
version = "0.1.0"
edition = "2021"
publish = false

[dependencies]
bytemuck = { version = "1", features = ["extern_crate_alloc"] }
futures-intrusive = "0.5"
thiserror = "1"
wgpu = "0.17"
