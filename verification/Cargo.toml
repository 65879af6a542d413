[package]
name = "sldl-remote"
version = "0.1.0"
edition = "2021"
publish = false

[dependencies]
aes-gcm = "0.10"
anyhow = "1"
chrono = "0.4"
directories = "5"
rand = "0.8"
serde = { version = "1", features = ["derive"] }
serde_json = "1"
shell-escape = "0.1"
tauri = { version = "2", default-features = false }
tokio = { version = "1", features = ["process", "rt-multi-thread", "macros", "sync", "time", "io-util"] }
uuid = { version = "1", features = ["v4"] }
