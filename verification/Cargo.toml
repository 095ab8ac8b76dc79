[package]
name = "tweetfs"
version = "0.1.0"
edition = "2021"
publish = false

[dependencies]
anyhow = "1"
dotenv = "0.15"
egg-mode = "0.13"
futures = { version = "0.3", features = ["compat"] }
libc = "0.2"
polyfuse = "0.3"
polyfuse-tokio = "*"
slab = "0.4"
tokio = { version = "0.2", features = ["sync"] }
tokio-compat = "0.1"
tracing = "0.1"
tracing-subscriber = "0.2"
