[package]
name = "refresh_reconciler"
version = "0.1.0"
edition = "2021"
publish = false

[dependencies]
serde = { version = "=1.0.229", features = ["derive"] }
tokio = { version = "=1.53.2", features = ["macros", "rt", "sync", "time"] }
zbus = { version = "=3.15.2", features = ["tokio"] }
