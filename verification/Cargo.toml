[package]
name = "breezer"
version = "0.1.0"
edition = "2021"
publish = false

[dependencies]
aes = "0.8"
blowfish = "0.9"
cbc = "0.1"
md-5 = "0.10"
serde = { version = "1", features = ["derive"] }
serde_json = "1"
semver = "1"
jpeg-decoder = "0.3"
log = "0.4"
env_logger = "*"
dirs = "*"
reqwest = { version = "0.12", default-features = false, features = ["json", "cookies", "rustls-tls"] }
tokio = { version = "1", features = ["rt-multi-thread", "macros", "sync", "time"] }
rodio = "*"

[dev-dependencies]
hex = "0.4"
