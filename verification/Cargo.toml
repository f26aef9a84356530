[package]
name = "widget_core"
version = "0.1.0"
edition = "2021"
publish = false

[dependencies]
winapi = { version = "0.3", features = ["winuser", "commctrl", "shellapi", "windef", "minwindef", "winnt", "ntdef"] }
