[package]
name = "begin_wallet"
version = "0.1.0"
edition = "2021"
publish = false

[dependencies]
anyhow = "1"
bip39 = "2"
clap = { version = "4", features = ["derive"] }
crossterm = "0.28"
dirs-next = "2"
getrandom = "0.3"
ratatui = "0.29"
reqwest = { version = "0.12", default-features = false, features = ["json", "rustls-tls"] }
serde = { version = "1", features = ["derive"] }
serde_json = "1"
tokio = { version = "1", features = ["macros", "rt-multi-thread"] }
