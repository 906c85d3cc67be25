[package]
name = "wedge"
version = "0.1.0"
edition = "2021"
publish = false

[dependencies]
url = "2"
serde = { version = "1", features = ["derive"] }
serde_json = "1"
widestring = "*"
winapi = { version = "0.3", features = ["winuser", "winbase", "shellapi", "libloaderapi", "combaseapi", "shlobj", "fileapi", "ioapiset", "winioctl", "handleapi", "processthreadsapi", "commctrl", "objbase", "objidl", "unknwnbase", "minwinbase", "winerror", "wtypesbase", "ntdef", "minwindef", "windef", "winnt", "shtypes"] }
winreg = "*"
