[package]
name = "figshare_rs"
version = "0.1.0"
edition = "2021"
publish = false

[dependencies]
bytes = "=1.12.1"
client-uploader-traits = "=0.1.0"
futures-core = "=0.3.34"
futures-util = "=0.3.34"
hex = "=0.4.3"
md-5 = "=0.10.6"
reqwest = { version = "=0.12.28", default-features = false, features = ["json", "stream", "rustls-tls"] }
secrecy = "=0.10.3"
serde = { version = "=1.0.229", features = ["derive"] }
serde_json = "=1.0.154"
tempfile = "=3.27.0"
thiserror = "=2.0.21"
tokio = { version = "=1.54.1", features = ["rt", "macros", "fs", "io-util", "time"] }
url = { version = "=2.5.8", features = ["serde"] }
