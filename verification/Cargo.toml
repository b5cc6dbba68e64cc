[package]
name = "voice_everywhere"
version = "0.1.0"
edition = "2021"
publish = false

[dependencies]
anyhow = "=1.0.104"
enigo = "=0.6.1"
gtk-layer-shell = "=0.8.2"
log = "=0.4.35"
ogg = "=0.9.2"
opus-rs = "=0.1.40"
serde = { version = "=1.0.229", features = ["derive"] }
symphonia = "=0.5.5"
tokio = { version = "=1.54.1", features = ["rt"] }
windows = { version = "=0.62.2", features = ["Win32_Foundation", "Win32_Graphics_Gdi", "Win32_UI_WindowsAndMessaging", "Win32_System_Com", "Win32_System_Ole", "Win32_System_Variant", "Win32_UI_Accessibility"] }
