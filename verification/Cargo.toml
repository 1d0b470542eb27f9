[package]
name = "export_preview"
version = "0.1.0"
edition = "2021"
publish = false

[dependencies]
anyhow = "=1.0.104"
log = "=0.4.34"
tinymist-std = { version = "=0.13.30", default-features = false }
tinymist-world = { version = "=0.13.30", default-features = false }
tokio = { version = "=1.54.1", default-features = false, features = ["sync", "rt", "macros"] }
typst = "=0.13.1"
