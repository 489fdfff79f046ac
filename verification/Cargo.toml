[package]
name = "keyboard_inject"
version = "0.1.0"
edition = "2021"
publish = false

[dependencies]
windows = { version = "=0.58.0", features = ["Win32_UI_Input_KeyboardAndMouse"] }
