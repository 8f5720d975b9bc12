[package]
name = "create_process_rust"
version = "0.1.0"
edition = "2021"
publish = false

[dependencies]
base64 = "0.21"
itertools = "0.12"
serde = { version = "1", features = ["derive"] }
serde_json = "1"
windows = { version = "0.48", features = ["Win32_Foundation", "Win32_Security", "Win32_System_Environment", "Win32_System_Threading", "Win32_UI_Shell"] }
