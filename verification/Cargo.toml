[package]
name = "backup_cycle"
version = "0.1.0"
edition = "2021"
publish = false

[dependencies]
b2_backblaze = "*"
chrono = { version = "0.4", default-features = false, features = ["clock"] }
clap = { version = "4", features = ["derive"] }
serde = { version = "1", features = ["derive"] }
tokio = { version = "1", features = ["macros", "rt-multi-thread", "time"] }
toml = "*"
