[package]
name = "minibin"
version = "0.1.0"
edition = "2021"
publish = false

[dependencies]
sysinfo = "=0.39.6"
winapi = { version = "*", features = ["shellapi", "winuser", "winnt", "winerror"] }
winreg = "*"
