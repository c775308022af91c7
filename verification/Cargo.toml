[package]
name = "microsandbox-core"
version = "0.1.0"
edition = "2021"
publish = false

[dependencies]
anyhow = "1"
flate2 = "1"
oci-client = { version = "=0.18.0", default-features = false, features = ["rustls-tls-no-provider"] }
serde = { version = "1", features = ["derive"] }
serde_json = "1"
sha2 = "=0.10.9"
tar = "0.4"
tempfile = "3"
tokio = { version = "1", features = ["fs", "process", "rt"] }
tracing = "0.1"
xattr = "1"
