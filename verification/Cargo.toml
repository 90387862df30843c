[package]
name = "ditherwave"
version = "0.1.0"
edition = "2021"
publish = false

[dependencies]
base64 = "0.22"
serde = { version = "1", features = ["derive"] }
serde_json = "1"
toml = "0.8"
image = { version = "0.25", default-features = false, features = ["png", "jpeg"] }
imagepipe = "*"
resvg = { version = "*", default-features = false }
clap = { version = "4", features = ["derive"] }
indicatif = "*"
rayon = "1"
dirs = "*"
thiserror = "2"
log = "0.4"
