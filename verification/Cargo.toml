[package]
name = "space_recorder"
version = "0.1.0"
edition = "2021"
publish = false

[dependencies]
sha2 = "=0.10.9"
hex = "=0.4.3"
crossterm = { version = "=0.28.1", features = ["event-stream"] }
portable-pty = "=0.8.1"
nokhwa = { version = "=0.10.11", features = ["input-native"] }
tokio = { version = "=1.54.1", features = ["rt-multi-thread", "macros", "sync", "time"] }
futures = "=0.3.34"
ctrlc = "=3.5.2"
directories = "=5.0.1"
dirs = "=5.0.1"
libc = "=0.2.191"
reqwest = { version = "=0.12.28", default-features = false, features = ["json", "rustls-tls"] }
serde = { version = "=1.0.229", features = ["derive"] }
rdev = "=0.5.3"
