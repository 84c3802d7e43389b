[package]
name = "patine"
version = "0.1.0"
edition = "2021"
publish = false

[dependencies]
base64 = "0.22"
regex = "1"
bytes = "1"
dotenv = "0.15"
futures = "0.3"
hickory-resolver = "0.25"
once_cell = "1"
pam = "0.7"
rand = "0.8"
tokio = { version = "1", features = ["full"] }
tokio-rustls = "0.26"
tokio-util = { version = "0.7", features = ["codec"] }
tracing = "0.1"
tracing-subscriber = "0.3"
webpki-roots = "0.26"
