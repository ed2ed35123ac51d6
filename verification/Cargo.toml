[package]
name = "clipbox"
version = "0.1.0"
edition = "2021"
publish = false

[dependencies]
windows-sys = { version = "=0.52.0", features = ["Win32_Foundation", "Win32_UI_WindowsAndMessaging", "Win32_UI_Shell", "Win32_Graphics_Gdi", "Win32_System_LibraryLoader", "Win32_System_Threading", "Win32_UI_Input_KeyboardAndMouse", "Win32_System_SystemServices", "Win32_Storage_FileSystem"] }
