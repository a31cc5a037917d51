[package]
name = "riichilab_agent"
version = "0.1.0"
edition = "2021"
publish = false

[dependencies]
anyhow = "1"
argh = "*"
futures-util = "0.3"
http = "1"
rand = "0.9"
riichienv-core = "*"
serde = { version = "1", features = ["derive"] }
serde_json = "1"
tokio = { version = "1", features = ["macros", "rt-multi-thread"] }
tokio-tungstenite = { version = "0.26", features = ["rustls-tls-webpki-roots"] }
