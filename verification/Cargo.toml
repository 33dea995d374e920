[package]
name = "una-core"
version = "0.1.0"
edition = "2021"
publish = false

[dependencies]
async-trait = "0.1"
base64 = "0.13"
clap = "3.2"
cuid = "1.2"
hex = "0.4"
http = "0.2"
lightning-invoice = "0.21"
prost = "0.11"
regex = "1"
reqwest = { version = "0.11", default-features = false, features = ["json", "rustls-tls"] }
serde = { version = "1", features = ["derive"] }
serde_json = "1"
tokio = { version = "1", features = ["rt-multi-thread", "macros"] }
tonic = { version = "0.8", features = ["tls"] }
