[package]
name = "stark_proofs"
version = "0.1.0"
edition = "2021"
publish = false

[dependencies]
winterfell = "0.9"
base64 = "0.22"
hex = "0.4"
sha2 = "0.10"
ripemd = "0.1"
stacks-rs = "*"
serde = { version = "1", features = ["derive"] }
serde_json = "1"
serde_with = "3"
bytes = "1"
tokio = { version = "1", features = ["full"] }
warp = "0.3"
tokio-tungstenite = "*"
futures-channel = "0.3"
futures-util = "0.3"
reqwest = { version = "0.12", default-features = false, features = ["json"] }
