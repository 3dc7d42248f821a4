[package]
name = "ray_engine"
version = "0.1.0"
edition = "2021"
publish = false

[dependencies]
raw-window-handle = "0.6"
windows = { version = "0.52", features = [
    "Win32_Foundation",
    "Win32_Graphics_Direct3D",
    "Win32_Graphics_Direct3D12",
    "Win32_Graphics_Dxgi",
    "Win32_Graphics_Dxgi_Common",
    "Win32_UI_WindowsAndMessaging",
    "Win32_System_SystemInformation",
] }
winit = "0.29"
nalgebra = "0.32"
