[package]
name = "site_compiler"
version = "0.1.0"
edition = "2021"
publish = false

[dependencies]
clap = { version = "4", features = ["derive"] }
comrak = { version = "0.18", default-features = false }
gray_matter = "0.2"
serde_json = "1"
walkdir = "2"
