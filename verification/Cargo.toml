[package]
name = "osd_bubble"
version = "0.1.0"
edition = "2021"
publish = false

[dependencies]
rdev = "0.5"
serde = { version = "1", features = ["derive"] }
serde_json = "1"
tiny-skia = "0.11"
rusttype = "0.9"
lazy_static = "1"
windows = { version = "0.61", features = ["Win32_Foundation", "Win32_Graphics_Gdi", "Win32_System_LibraryLoader", "Win32_UI_WindowsAndMessaging", "Win32_UI_HiDpi", "Win32_System_Threading"] }
