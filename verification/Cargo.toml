[package]
name = "rpc_lib"
version = "2.1.0"
edition = "2021"
publish = false

[dependencies]
base64 = "0.13"
clap = "2"
openssl-probe = "0.1"
reqwest = { version = "0.12", features = ["blocking"] }
serde = { version = "1", features = ["derive"] }
serde_json = { version = "1", features = ["preserve_order"] }
