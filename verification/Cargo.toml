[package]
name = "miranda"
version = "0.1.0"
edition = "2021"
publish = false

[dependencies]
bytes = "1"
tokio = { version = "1", features = ["sync", "rt", "rt-multi-thread", "macros", "time", "net"] }
axum = { version = "0.8", features = ["ws"] }
tower-http = { version = "0.6", features = ["cors"] }
serde = { version = "1", features = ["derive"] }
serde_json = "1"
bytemuck = { version = "1", features = ["derive"] }
memmap2 = "0.9"
rand = { version = "0.8", features = ["small_rng"] }
noise = "0.9"
wide = "0.7"
reqwest = { version = "0.12", default-features = false, features = ["json"] }
cpal = "0.15"
