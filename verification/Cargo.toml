[package]
name = "usine"
version = "0.1.0"
edition = "2021"
publish = false

[dependencies]
anyhow = "1"
arboard = "3"
base64 = "0.22"
chrono = "0.4"
dioxus = { version = "*", default-features = false, features = ["macro", "html", "signals", "hooks", "launch", "document"] }
futures = "0.3"
image = { version = "0.25", default-features = false, features = ["png"] }
libc = "0.2"
rfd = "*"
serde = { version = "1", features = ["derive"] }
serde_json = "1"
tokio = { version = "1", features = ["full"] }
tracing-subscriber = { version = "0.3", features = ["env-filter"] }
uuid = { version = "1", features = ["v4"] }
