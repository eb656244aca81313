[package]
name = "tomodachi"
version = "0.1.0"
edition = "2021"
publish = false

[dependencies]
chrono = "0.4"
serde = { version = "1", features = ["derive"] }
serde_json = "1"
tokio = { version = "1", features = ["rt-multi-thread", "sync", "time", "io-util", "net", "macros"] }
rusqlite = { version = "*", features = ["bundled"] }
notify = "*"
directories = "*"
anyhow = "1"
tracing = "0.1"
tracing-subscriber = { version = "0.3", features = ["env-filter"] }
winit = "0.30"
softbuffer = "*"
tray-icon = "*"
windows-sys = { version = "*", features = ["Win32_Foundation", "Win32_UI_WindowsAndMessaging"] }
