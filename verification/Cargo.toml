[package]
name = "palette_dither"
version = "0.1.0"
edition = "2021"
publish = false

[dependencies]
anyhow = "*"
delta_e = "*"
image = { version = "*", default-features = false, features = ["png"] }
memmap2 = "*"
serde = { version = "*", features = ["derive"] }
serde_derive = "*"
serde_json = "*"
