[package]
name = "nextrmm_agent"
version = "0.1.0"
edition = "2021"
publish = false

[dependencies]
anyhow = "1"
rand = "0.8"
reqwest = { version = "0.12", default-features = false, features = ["blocking", "rustls-tls"] }
tempfile = "3"
uuid = { version = "1", features = ["v4"] }
wait-timeout = "0.2"
windows = { version = "0.58", features = ["Win32_System_SystemInformation"] }
winreg = "0.52"
zip = { version = "0.6", default-features = false, features = ["deflate"] }
