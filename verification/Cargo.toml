[package]
name = "mcvcli"
version = "0.1.0"
edition = "2021"
publish = false

[dependencies]
clap = "*"
colored = "*"
dialoguer = { version = "*", features = ["fuzzy-select"] }
human_bytes = "*"
indexmap = { version = "*", features = ["serde"] }
ipipe = "*"
reqwest = { version = "*", default-features = false }
serde = { version = "*", features = ["derive"] }
serde_json = "*"
sysinfo = "*"
term_size = "*"
tokio = { version = "*", features = ["full"] }
zip = { version = "*", default-features = false, features = ["deflate"] }
