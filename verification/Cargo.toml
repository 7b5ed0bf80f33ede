[package]
name = "arraynforest"
version = "0.1.0"
edition = "2021"
publish = false

[dependencies]
wgpu = "0.19"
bytemuck = "1"
futures-channel = "0.3"
smol = "2"
log = "0.4"
thiserror = "1"
serde = { version = "1", features = ["derive"] }
deser-hjson = "*"
flume = "0.11"
once_cell = "1"
