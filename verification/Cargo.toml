[package]
name = "fontick"
version = "0.1.0"
edition = "2021"
publish = false

[dependencies]
pinyin = "=0.10.0"
serde = { version = "=1.0.229", features = ["derive"] }
serde_json = "=1.0.154"
tauri = { version = "=2.12.5", default-features = false, features = ["wry"] }
windows = { version = "=0.62.2", features = ["Win32_Foundation", "Win32_System_Com", "Win32_System_Ole", "Win32_System_Variant", "Win32_System_DataExchange", "Win32_System_Memory", "Win32_UI_WindowsAndMessaging", "Win32_UI_Input_KeyboardAndMouse", "Win32_UI_Accessibility"] }
objc2 = "=0.6.5"
objc2-foundation = "=0.3.2"
objc2-app-kit = "=0.3.2"
core-graphics = "=0.25.0"
