[package]
name = "solana-dev-tools"
version = "0.1.0"
edition = "2021"
publish = false

[dependencies]
clap = { version = "4", features = ["derive", "env"] }
color-eyre = "0.6"
colored = "2"
comfy-table = "7"
confy = "0.6"
indicatif = "0.17"
keyring = { version = "3", features = ["apple-native", "windows-native", "linux-native"] }
open = "5"
reqwest = { version = "0.12", default-features = false, features = ["json"] }
serde = { version = "1", features = ["derive"] }
serde_json = "1"
thiserror = "1"
tokio = { version = "1", features = ["rt-multi-thread", "macros", "time"] }
tracing-subscriber = { version = "0.3", features = ["env-filter"] }
