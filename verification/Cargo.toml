[package]
name = "calendar_log"
version = "0.1.0"
edition = "2021"
publish = false

[dependencies]
toml = { version = "0.8", features = ["preserve_order"] }
printpdf = "0.7"
rusttype = "0.9"
anyhow = "1"
