[package]
name = "fluster_session"
version = "0.1.0"
edition = "2021"
publish = false

[dependencies]
dirs = "=7.0.0"
include_dir = "*"
md5 = "=0.7.0"
reqwest = "*"
rocket = "*"
serde = { version = "=1.0.229", features = ["derive"] }
serde_json = "=1.0.154"
tokio = { version = "1", features = ["full"] }
winapi = { version = "0.3", features = ["shellapi", "winuser"] }
zip = { version = "*", default-features = false, features = ["deflate"] }
