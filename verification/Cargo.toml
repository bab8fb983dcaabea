[package]
name = "windows_window_subclass"
version = "0.1.0"
edition = "2021"
publish = false

[dependencies]
raw-window-handle = "0.3"
winapi = { version = "0.3", features = ["winuser", "commctrl", "uxtheme", "dwmapi", "windowsx", "winerror", "minwindef", "windef", "basetsd", "ntdef"] }
winit = "0.24"
