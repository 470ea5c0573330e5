[package]
name = "tray_bridge"
version = "0.1.0"
edition = "2021"
publish = false

[dependencies]
resvg = "*"
ico = "*"
json = "*"
shell-words = "*"
winreg = "*"
winapi = { version = "*", features = ["wincon", "winuser"] }
native-windows-gui = "*"
