[package]
name = "ed_afk_notifier"
version = "0.1.0"
edition = "2021"
publish = false

[dependencies]
chrono = "*"
ed-journals = "*"
pushover = "*"
serde = { version = "*", features = ["derive"] }
serde_json = "*"
tokio = { version = "*", features = ["macros", "rt-multi-thread"] }
