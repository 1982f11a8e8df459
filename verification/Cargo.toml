[package]
name = "cert_inspector"
version = "0.1.0"
edition = "2021"
publish = false

[dependencies]
openssl = "0.10"
tokio = { version = "1", features = ["net", "time", "rt-multi-thread", "macros"] }
tokio-openssl = "0.6"
actix-web = { version = "4", default-features = false, features = ["macros"] }
actix-cors = "0.7"
serde = { version = "1", features = ["derive"] }
