[package]
name = "shadowquic"
version = "0.1.0"
edition = "2021"
publish = false

[dependencies]
async-trait = "=0.1.92"
bytes = "=1.12.1"
quinn-jls = "=0.3.8"
rustls-jls = { version = "=1.3.7", default-features = false, features = ["logging", "ring", "std", "tls12"] }
socket2 = "=0.6.5"
tokio = { version = "=1.54.1", features = ["full"] }
tracing = "=0.1.44"
webpki-roots = "=1.0.10"

[dev-dependencies]
quinn-proto-jls = "0.3"
