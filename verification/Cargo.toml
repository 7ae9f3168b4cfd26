[package]
name = "handy"
version = "0.1.0"
edition = "2021"
publish = false

[dependencies]
hound = "=3.5.1"
log = "=0.4.35"
serde = { version = "=1.0.229", features = ["derive"] }
serde_json = "=1.0.154"
reqwest = { version = "=0.13.5", default-features = false, features = ["multipart", "blocking"] }
zbus = "5"
windows = { version = "0.58", features = ["Foundation", "Foundation_Collections", "Media_Control", "Win32_Foundation", "Win32_System_WinRT"] }
