[package]
name = "spotify_auto_mute"
version = "0.1.0"
edition = "2021"
publish = false

[dependencies]
sysinfo = "=0.30.13"
windows = { version = "=0.48.0", features = ["Win32_Foundation", "Win32_System_Com", "Win32_System_Com_StructuredStorage", "Win32_UI_WindowsAndMessaging", "Win32_Media_Audio"] }
