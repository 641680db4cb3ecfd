[package]
name = "mcubed"
version = "0.1.0"
edition = "2021"
publish = false

[dependencies]
zip = { version = "=0.6.6", default-features = false, features = ["bzip2", "deflate", "time", "zstd"] }
sha1 = "=0.10.7"
sha2 = "=0.10.9"
hex = "=0.4.3"
regex = "=1.13.1"
image = { version = "=0.24.9", default-features = false, features = ["png", "jpeg"] }
serde = { version = "=1.0.229", features = ["derive"] }
serde_json = "=1.0.154"
toml = "=0.5.11"
thiserror = "=1.0.69"
ferinth = "=2.5.1"
reqwest = "=0.11.27"
tokio = { version = "=1.54.1", features = ["rt-multi-thread", "macros", "sync", "fs"] }
futures = "=0.3.34"
crossbeam-channel = "=0.5.17"
parking_lot = "=0.12.5"
once_cell = "=1.21.4"
tracing = "=0.1.44"
tracing-subscriber = { version = "=0.3.23", features = ["env-filter"] }
daedalus = "0.1"
directories = "4"
color-eyre = "0.6"
