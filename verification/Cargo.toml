[package]
name = "screen_time_manager"
version = "0.1.0"
edition = "2021"
publish = false

[dependencies]
dirs = "=5.0.1"
dptree = "=0.3.0"
rusqlite = "=0.31.0"
takecell = "=0.1.1"
teloxide = { version = "=0.13.0", features = ["macros"] }
tokio = { version = "=1.54.1", features = ["rt-multi-thread", "macros", "time"] }
windows = { version = "=0.58.0", features = ["Win32_Foundation", "Win32_Graphics_Gdi", "Win32_Media_Audio", "Win32_Security", "Win32_Storage_FileSystem", "Win32_System_LibraryLoader", "Win32_System_Shutdown", "Win32_System_SystemInformation", "Win32_System_Threading", "Win32_UI_Controls", "Win32_UI_HiDpi", "Win32_UI_Input_KeyboardAndMouse", "Win32_UI_Shell", "Win32_UI_WindowsAndMessaging"] }
