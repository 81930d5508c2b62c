[package]
name = "launcher_core"
version = "0.1.0"
edition = "2021"
publish = false

[dependencies]
fuzzy-matcher = "0.3"
serde_json = "1"
anyhow = "1"
serde = { version = "1", features = ["derive"] }
toml = "*"
tokio = { version = "1", features = ["rt-multi-thread", "macros", "sync", "time"] }
async-trait = "0.1"
dirs = "*"
lnk = "*"
local-ip-address = "*"
public-ip = "*"
arboard = "*"
