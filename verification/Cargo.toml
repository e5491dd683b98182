[package]
name = "auto_project"
version = "0.1.0"
edition = "2021"
publish = false

[dependencies]
anyhow = "1"
clap = { version = "4", features = ["derive"] }
console = "0.15"
directories = "5"
human-panic = "1"
ico = "0.3"
log = "0.4"
once_cell = "1"
pretty_env_logger = "0.5"
resvg = "0.35"
rust-embed = { version = "8", features = ["interpolate-folder-path"] }
serde = { version = "1", features = ["derive"] }
tiny-skia = "0.10"
toml = "0.7"
usvg = "0.35"
which = "4"
windows = { version = "0.48", features = ["Win32_Foundation", "Win32_System_Com", "Win32_UI_Shell", "Win32_UI_WindowsAndMessaging"] }
