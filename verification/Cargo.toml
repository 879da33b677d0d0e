[package]
name = "yubi_tray_rs"
version = "0.1.0"
edition = "2021"
publish = false

[dependencies]
directories = "=6.0.0"
hidapi = "=2.6.7"
tray-icon = { version = "=0.26.0", default-features = false, features = ["ksni"] }
winrt-notification = "=0.5.1"
