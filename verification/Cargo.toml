[package]
name = "lucius"
version = "0.1.0"
edition = "2021"
publish = false

[dependencies]
serde = { version = "1", features = ["derive"] }
serde_json = "1"
tokio = { version = "1", features = ["full"] }
reqwest = { version = "0.12", default-features = false, features = ["json"] }
redis = { version = "0.27", features = ["tokio-comp"] }
crossterm = "0.28"
ratatui = "0.29"
tui-textarea = "0.7"
termimad = "*"
simplelog = "0.12"
log = "0.4"
dirs = "5"
toml = "0.8"
arboard = { version = "3", default-features = false }
dotenv = "0.15"
