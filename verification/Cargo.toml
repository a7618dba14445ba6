[package]
name = "plutonium_manager"
version = "0.1.0"
edition = "2021"
publish = false

[dependencies]
flate2 = "*"
clap = { version = "*", features = ["derive"] }
indicatif = "*"
reqwest = { version = "*", default-features = false, features = ["rustls-tls", "json", "stream"] }
tokio = { version = "*", features = ["rt-multi-thread", "macros"] }
futures-util = "*"
tar = "*"
zip-extract = "*"
serde = { version = "*", features = ["derive"] }
