[package]
name = "mrsbfh"
version = "0.1.0"
edition = "2021"
publish = false

[dependencies]
regex = "=1.13.1"
convert_case = "=0.5.0"
pulldown-cmark = "0.9"
serde = { version = "=1.0.229", features = ["derive"] }
serde_json = "=1.0.154"
serde_yaml = "=0.9.34"
thiserror = "=1.0.69"
tokio = { version = "=1.54.1", features = ["rt-multi-thread", "macros", "sync", "time"] }
tracing = "=0.1.44"
tracing-subscriber = "=0.3.23"
clap = { version = "=3.2.25", features = ["derive"] }
url = "=2.5.8"
async-trait = "=0.1.92"
matrix-sdk = { version = "0.5", default-features = false, features = ["rustls-tls"] }
