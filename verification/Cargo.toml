[package]
name = "yon"
version = "0.2.0"
edition = "2021"
publish = false

[dependencies]
backon = { version = "1", default-features = false, features = ["std"] }
clap = { version = "4", features = ["derive"] }
crossterm = "*"
opaque-ke = { version = "*", features = ["argon2", "std"] }
rand = "0.8"
rpassword = "*"
serde = { version = "1", features = ["derive"] }
sha2 = "0.10"
thiserror = "2"
tokio = { version = "1", features = ["full"] }
tokio-util = { version = "0.7", features = ["compat"] }
tracing = "0.1"
tracing-subscriber = "0.3"
zeroize = { version = "1", features = ["derive"] }
