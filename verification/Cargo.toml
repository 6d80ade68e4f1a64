[package]
name = "ram_ui"
version = "0.1.0"
edition = "2021"
publish = false

[dependencies]
serde_json = "=1.0.154"
uuid = { version = "=1.29.0", features = ["v4"] }
chrono = { version = "=0.4.45", default-features = false, features = ["clock", "std"] }
eframe = { version = "0.29", default-features = false, features = ["glow", "default_fonts", "x11"] }
egui_extras = { version = "0.29", default-features = false }
image = { version = "=0.25.10", default-features = false, features = ["png", "jpeg"] }
reqwest = { version = "=0.12.28", default-features = false, features = ["blocking", "json"] }
tokio = { version = "=1.54.1", features = ["rt-multi-thread", "sync", "time"] }
tracing = "=0.1.44"
tracing-appender = "=0.2.5"
tracing-subscriber = { version = "=0.3.23", default-features = false, features = ["fmt", "env-filter", "std"] }
tungstenite = { version = "=0.30.0", default-features = false, features = ["handshake"] }
rfd = { version = "=0.17.2", default-features = false, features = ["xdg-portal"] }
