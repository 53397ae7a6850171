[package]
name = "uav_gcs"
version = "0.1.0"
edition = "2021"
publish = false

[dependencies]
mavlink = "=0.21.0"
serde = { version = "=1.0.229", features = ["derive"] }
thiserror = "=2.0.21"
tokio = { version = "=1.54.1", features = ["full"] }
tracing = "=0.1.44"
tracing-subscriber = { version = "=0.3.23", features = ["env-filter"] }
toml = "=0.9.8"
dirs = "=6.0.0"
anyhow = "=1.0.104"
chrono = "=0.4.45"
gilrs = "=0.11.2"
eframe = { version = "=0.33.3", default-features = false, features = ["glow", "default_fonts", "x11"] }
