[package]
name = "mumbleacre"
version = "0.1.0"
edition = "2021"
publish = false

[dependencies]
arc-swap = "1"
hound = "3.5"
serde = { version = "1", features = ["derive"] }
serde_json = "1"
sha2 = "0.10"
thiserror = "2"
windows-sys = { version = "0.59", features = ["Win32_Foundation", "Win32_Graphics_Gdi", "Win32_Security", "Win32_Storage_FileSystem", "Win32_System_IO", "Win32_System_LibraryLoader", "Win32_System_Pipes", "Win32_System_Threading", "Win32_UI_WindowsAndMessaging", "Win32_Media_Audio", "Win32_Media_Multimedia"] }
