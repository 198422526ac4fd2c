[package]
name = "gouda"
version = "0.1.0"
edition = "2021"
publish = false

[dependencies]
infer = "=0.22.0"
mime = "=0.3.17"
mime_guess = "=2.0.5"
prost = "=0.14.4"
serde = { version = "=1.0.229", features = ["derive"] }
serde_json = "=1.0.154"
thiserror = "=2.0.21"
tokio = { version = "=1.54.1", features = ["full"] }
clap = { version = "=4.6.7", features = ["derive"] }
log = "=0.4.35"
interprocess = { version = "=2.4.7", features = ["tokio"] }
log4rs = { version = "*", default-features = false, features = ["file_appender", "pattern_encoder"] }
