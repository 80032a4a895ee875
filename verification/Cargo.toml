[package]
name = "cargo_unmaintained"
version = "0.1.0"
edition = "2021"
publish = false

[dependencies]
anyhow = "=1.0.104"
serde = { version = "=1.0.229", features = ["derive"] }
serde_json = "=1.0.151"
sha1_smol = { version = "=1.0.1", features = ["std"] }
tempfile = "=3.27.0"
xdg = "=3.0.0"
