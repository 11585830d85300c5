[package]
name = "subcore"
version = "0.1.0"
edition = "2021"
publish = false

[dependencies]
rppal = { version = "0.14", features = ["hal"] }
tokio = { version = "1", features = ["net", "io-util", "rt-multi-thread", "macros"] }
nix = { version = "0.29", features = ["fs"] }
tempfile = "3"
ctrlc = "3"
toml = "0.8"
serde = { version = "1", features = ["derive"] }
embedded-hal = "0.2"
