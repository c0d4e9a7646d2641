[package]
name = "zlorb"
version = "0.1.0"
edition = "2021"
publish = false

[dependencies]
git2 = { version = "*", default-features = false }
serde = { version = "1", features = ["derive"] }
serde_json = "1"
toml = "*"
clap = { version = "4", features = ["derive"] }
tokio = { version = "1", features = ["rt-multi-thread", "macros", "net"] }
axum = "*"
askama = "*"
tower-http = { version = "*", features = ["fs"] }
colog = "*"
log = "*"
