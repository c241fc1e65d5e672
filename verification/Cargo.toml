[package]
name = "cardyn"
version = "0.1.0"
edition = "2021"
publish = false

[dependencies]
serde = { version = "1", features = ["derive"] }
sysinfo = { version = "0.37", default-features = false, features = ["system"] }
core-foundation = "0.10"
io-kit-sys = "0.4"
