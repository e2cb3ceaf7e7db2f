[package]
name = "zitadel_cli"
version = "0.1.0"
edition = "2021"
publish = false

[dependencies]
actix-web = "4"
clap = { version = "4", features = ["derive"] }
dotenvy = "0.15"
open = "5"
parking_lot = "0.12"
rand = "0.8"
reqwest = { version = "0.12", default-features = false, features = ["json", "rustls-tls"] }
serde = { version = "1", features = ["derive"] }
serde_json = "1"
sha2 = "0.10"
thiserror = "1"
tokio = { version = "1", features = ["sync"] }
tracing = "0.1"
tracing-subscriber = "0.3"
url = "2"
