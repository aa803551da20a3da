[package]
name = "clearline"
version = "0.1.0"
edition = "2021"
publish = false

[dependencies]
sha2 = "=0.10.9"
serde = { version = "=1.0.229", features = ["derive"] }
serde_json = "=1.0.154"
directories = "=6.0.0"
anyhow = "=1.0.104"
hound = "=3.5.1"
cpal = "=0.18.2"
ureq = "=3.5.1"
eframe = { version = "*", default-features = false, features = ["default_fonts", "glow", "x11"] }
egui = "*"
windows-sys = { version = "*", features = ["Win32_Foundation", "Win32_UI_WindowsAndMessaging", "Win32_UI_Shell", "Win32_System_LibraryLoader", "Win32_Graphics_Gdi", "Win32_System_IO", "Win32_Storage_FileSystem", "Win32_Security", "Win32_System_Threading"] }
