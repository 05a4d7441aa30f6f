[package]
name = "vivid"
version = "0.1.0"
edition = "2021"
publish = false

[dependencies]
anyhow = "=1.0.104"
clap = { version = "=4.6.7", features = ["derive"] }
lazy_static = "=1.5.1"
log = "=0.4.34"
nvapi-hi = "=0.1.0"
parking_lot = "=0.13.0"
pretty_env_logger = "=0.5.0"
serde = { version = "=1.0.229", features = ["derive"] }
sysinfo = "=0.39.6"
thiserror = "=2.0.21"
toml = "=1.1.8"
windows = { version = "=0.48.0", features = ["Win32_Foundation", "Win32_Graphics_Gdi", "Win32_System_Console", "Win32_System_LibraryLoader", "Win32_System_Threading", "Win32_UI_Accessibility", "Win32_UI_Controls", "Win32_UI_Shell", "Win32_UI_WindowsAndMessaging"] }
