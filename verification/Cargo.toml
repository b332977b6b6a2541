[package]
name = "chunkdump"
version = "0.1.0"
edition = "2021"
publish = false

[dependencies]
argh = "0.1"
byte-unit = "5"
chrono = "0.4"
claxon = "0.4"
flate2 = "1"
id3 = "1"
mp4ameta = "0.11"
serde = { version = "1", features = ["derive"] }
thiserror = "1"
upon = "0.8"
