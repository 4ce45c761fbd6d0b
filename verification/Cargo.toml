[package]
name = "tetsuyu"
version = "0.1.0"
edition = "2021"
publish = false

[dependencies]
png = "0.18.1"
clap = { version = "4.6.7", features = ["derive"] }
serde = { version = "1.0.229", features = ["derive"] }
toml = "0.9.8"
winit = "0.30.13"
pollster = "1.0.1"
wgpu = { version = "27.0.1", default-features = false, features = ["wgsl"] }
cpal = "0.16.0"
rtrb = "0.4.1"
blip_buf = "0.2.1"
