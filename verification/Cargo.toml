[package]
name = "hwmr"
version = "0.1.0"
edition = "2021"
publish = false

[dependencies]
anyhow = "=1.0.104"
axum = { version = "=0.8.9", features = ["ws"] }
base64 = "=0.22.1"
futures-util = { version = "=0.3.34", features = ["sink"] }
getrandom = "=0.3.4"
qrcodegen = "=1.8.0"
reqwest = { version = "=0.12.28", default-features = false, features = ["json"] }
serde = { version = "=1.0.229", features = ["derive"] }
serde_json = "=1.0.154"
tokio = { version = "=1.54.1", features = ["macros", "rt-multi-thread", "net", "sync", "time", "signal"] }
tokio-tungstenite = "=0.26.2"
tower-http = { version = "=0.6.11", features = ["cors"] }
url = "=2.5.8"
windows = { version = "=0.58.0", features = ["Win32_Foundation", "Win32_Media_Audio", "Win32_System_Com"] }
windows-sys = { version = "=0.59.0", features = ["Win32_Foundation", "Win32_System_JobObjects", "Win32_System_Threading", "Win32_UI_WindowsAndMessaging"] }
