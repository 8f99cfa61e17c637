[package]
name = "inkframe"
version = "0.1.0"
edition = "2021"
publish = false

[dependencies]
libc = "0.2"
rusttype = "0.9"
serde = { version = "1", features = ["derive"] }
serde_json = "1"
chrono = "0.4"
image = "0.24"
