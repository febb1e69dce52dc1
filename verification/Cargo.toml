[package]
name = "motus"
version = "0.2.0"
edition = "2021"
publish = false

[dependencies]
rand = "0.9"
clap = { version = "4", features = ["derive"] }
arboard = { version = "3", default-features = false }
colored = "2"
human-panic = "2"
serde = { version = "1", features = ["derive"] }
serde_json = "1"
term-table = "1"
zxcvbn = "2"
wasm-bindgen = "0.2"
