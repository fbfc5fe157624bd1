[package]
name = "ss_encode"
version = "0.1.0"
edition = "2021"
publish = false

[dependencies]
anyhow = "1"
ash = "=0.38.0"
ffmpeg-next = "*"
libloading = "=0.9.0"
nvidia-video-codec-sdk = { version = "=0.4.0", features = ["ci-check"] }
tracing = "0.1"
windows = { version = "0.54", features = ["Win32_Foundation", "Win32_Graphics_Direct3D", "Win32_Graphics_Direct3D11", "Win32_Graphics_Dxgi", "Win32_Graphics_Dxgi_Common", "Win32_Security", "Win32_Storage_FileSystem", "Win32_System_LibraryLoader", "Win32_System_Threading"] }
