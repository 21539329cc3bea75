[package]
name = "moonlit"
version = "0.1.0"
edition = "2021"
publish = false

[dependencies]
cpal = "0.15"
serde = { version = "1", features = ["derive"] }
serde_json = "1"
tokio = { version = "1", features = ["fs", "io-util", "macros", "process", "rt-multi-thread", "sync", "time"] }
windows = { version = "0.61", features = ["Win32_Foundation", "Win32_System_SystemInformation"] }
windows-capture = "1"
