[package]
name = "tgbotool"
version = "0.1.0"
edition = "2021"
publish = false

[dependencies]
heck = "0.4"
serde = { version = "1", features = ["derive"] }
serde_json = "1"
serde_with = "3"
thiserror = "1"
reqwest = { version = "0.11", default-features = false, features = ["json", "multipart", "rustls-tls"] }
tokio = { version = "1", features = ["macros", "rt-multi-thread"] }
axum = { version = "0.6", features = ["macros"] }
clap = { version = "4", features = ["derive", "env"] }
syn = { version = "2", features = ["full"] }
quote = "1"
proc-macro2 = "1"
