[package]
name = "vidsave_core"
version = "0.1.0"
edition = "2021"
publish = false

[dependencies]
directories = "=6.0.0"
serde = { version = "=1.0.229", features = ["derive"] }
serde_json = "=1.0.154"
toml = "=1.1.8"
anyhow = "=1.0.104"
tokio = { version = "=1.54.1", features = ["process", "rt-multi-thread", "macros", "sync", "io-util", "time"] }
tokio-util = "=0.7.20"
which = "=8.0.6"
ureq = "=3.5.1"
flate2 = "=1.1.10"
tar = "=0.4.46"
lzma-rs = "=0.3.0"
zip = { version = "=9.2.2", default-features = false, features = ["deflate"] }
ratatui = "=0.30.2"
crossterm = "=0.29.0"
tui-input = "=0.15.5"
clap = { version = "4", features = ["derive"] }
winreg = "*"
windows-sys = { version = "*", features = ["Win32_Foundation", "Win32_UI_WindowsAndMessaging"] }
