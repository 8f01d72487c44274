[package]
name = "jsh_sandbox"
version = "0.1.0"
edition = "2021"
publish = false

[dependencies]
futures = "0.3"
libc = "0.2"
shiplift = { version = "0.7", default-features = false, features = ["unix-socket"] }
thiserror = "1"
tokio = { version = "1", features = ["full"] }
tokio-tungstenite = "0.14"
tungstenite = "0.13"
