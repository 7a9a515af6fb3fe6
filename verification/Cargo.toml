[package]
name = "tauri-runtime-cef"
version = "0.1.0"
edition = "2021"
publish = false

[dependencies]
cef = { version = "=156.3.0", default-features = false, features = ["dox", "linux-x11"] }
log = "=0.4.35"
raw-window-handle = "=0.6.2"
tauri-utils = { version = "=2.10.2", default-features = false }
winit = { version = "=0.31.0-beta.4", default-features = false, features = ["x11"] }
x11-dl = "=2.21.0"
