[package]
name = "session_socket"
version = "0.1.0"
edition = "2021"
publish = false

[dependencies]
bincode = "1"
libc = "0.2"
num = "0.4"
serde = { version = "1", features = ["derive"] }
serde_derive = "1"
