[package]
name = "monitord_timers"
version = "0.1.0"
edition = "2021"
publish = false

[dependencies]
anyhow = "1"
serde = { version = "1", features = ["derive"] }
struct-field-names-as-array = { version = "0.3", features = ["derive"] }
thiserror = "2"
tokio = { version = "1", features = ["sync"] }
tracing = "0.1"
zbus = { version = "5", default-features = false, features = ["tokio"] }
