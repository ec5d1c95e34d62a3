[package]
name = "adget"
version = "0.1.0"
edition = "2021"
publish = false

[dependencies]
clap = "4"
confy = "0.6"
humansize = "2"
reqwest = { version = "0.12", default-features = false, features = ["blocking", "rustls-tls"] }
serde = { version = "1", features = ["derive"] }
serde_json = "1"
