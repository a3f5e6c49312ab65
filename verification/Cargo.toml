[package]
name = "wallpaper_windows"
version = "0.1.0"
edition = "2021"
publish = false

[dependencies]
winapi = { version = "0.3", features = ["winuser", "winnt", "minwindef", "windef", "winerror", "combaseapi", "objbase", "shobjidl_core"] }
widestring = "0.4"
once_cell = "1"
