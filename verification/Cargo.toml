[package]
name = "ech_gui"
version = "0.1.0"
edition = "2021"
publish = false

[dependencies]
uuid = { version = "=1.29.0", features = ["v4"] }
serde = { version = "=1.0.229", features = ["derive"] }
serde_json = "=1.0.154"
dirs = "=7.0.0"
which = "=8.0.6"
parking_lot = "=0.12.5"
once_cell = "=1.21.4"
libc = "=0.2.191"
tauri = { version = "=2.12.5", default-features = false }
winreg = "=0.56.0"
winapi = { version = "=0.3.9", features = ["wininet"] }
windows = { version = "=0.62.2", features = ["Win32_Networking_WinInet"] }
