[package]
name = "ludusavi"
version = "0.1.0"
edition = "2021"
publish = false

[dependencies]
iced = { version = "=0.14.0", default-features = false, features = ["canvas"] }
image = { version = "=0.25.10", default-features = false, features = ["png"] }
log = "=0.4.35"
rfd = "*"
tokio = { version = "=1.54.1", features = ["sync"] }
tray-icon = "=0.26.1"
windows = { version = "*", features = ["Win32_Foundation", "Win32_UI_WindowsAndMessaging"] }
winreg = "=0.56.0"
