[package]
name = "signal"
version = "0.1.0"
edition = "2021"
publish = false

[dependencies]
glam = "=0.24.2"
windows = { version = "=0.52.0", features = ["Foundation_Numerics", "Win32_Foundation", "Win32_Graphics_Direct2D_Common", "Win32_Graphics_Dwm", "Win32_Graphics_Gdi", "Win32_System_Com", "Win32_System_LibraryLoader", "Win32_System_SystemServices", "Win32_UI_Controls", "Win32_UI_Input_Pointer", "Win32_UI_WindowsAndMessaging"] }
