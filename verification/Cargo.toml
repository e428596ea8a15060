[package]
name = "captioninator"
version = "0.1.0"
edition = "2021"
publish = false

[dependencies]
azure-speech = "=0.10.0"
catppuccin-egui = { version = "=5.7.0", default-features = false, features = ["egui33"] }
clap = { version = "=4.6.7", default-features = false, features = ["derive", "std"] }
eframe = { version = "=0.33.3", default-features = false, features = ["default_fonts", "glow", "x11"] }
egui = "=0.33.3"
serde = { version = "=1.0.229", features = ["derive"] }
tokio = { version = "=1.53.2", features = ["io-util", "macros", "process", "rt-multi-thread", "sync", "time"] }
tokio-stream = "=0.1.19"
toml = "=0.9.8"
tracing = "=0.1.44"
tracing-subscriber = "=0.3.23"
