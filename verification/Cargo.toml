[package]
name = "tinycapture"
version = "0.1.0"
edition = "2021"
publish = false

[dependencies]
image = { version = "=0.25.10", default-features = false, features = ["png"] }
uuid = { version = "=1.29.0", features = ["v4"] }
gifski = { version = "=1.34.0", default-features = false }
imgref = "=1.12.3"
rgb = "=0.8.53"
crossbeam-channel = "=0.5.17"
parking_lot = "=0.12.5"
anyhow = "=1.0.104"
thiserror = "=1.0.69"
rfd = "0.14"
windows = { version = "0.58", features = ["Foundation", "Graphics", "Graphics_Capture", "Graphics_DirectX", "Graphics_DirectX_Direct3D11", "Win32_Foundation", "Win32_Graphics_Direct3D", "Win32_Graphics_Direct3D11", "Win32_Graphics_Dwm", "Win32_Graphics_Dxgi", "Win32_Graphics_Dxgi_Common", "Win32_Graphics_Gdi", "Win32_System_LibraryLoader", "Win32_System_WinRT", "Win32_System_WinRT_Direct3D11", "Win32_System_WinRT_Graphics_Capture", "Win32_UI_HiDpi", "Win32_UI_Input_KeyboardAndMouse", "Win32_UI_Shell", "Win32_UI_WindowsAndMessaging"] }
