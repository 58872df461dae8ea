[package]
name = "litecap"
version = "0.1.0"
edition = "2021"
publish = false

[dependencies]
anyhow = "=1.0.104"
crossbeam-channel = "=0.5.17"
parking_lot = "=0.13.0"
directories = "=6.0.0"
serde = { version = "=1.0.229", features = ["derive"] }
toml = "=1.1.8"
log = "=0.4.35"
env_logger = { version = "=0.11.11", default-features = false }
notify-rust = "=4.18.2"
time = { version = "=0.3.55", features = ["local-offset", "formatting", "macros"] }
ureq = "=3.5.1"
tar = "=0.4.46"
xz2 = "=0.1.7"
zip = { version = "=9.2.2", default-features = false, features = ["deflate"] }
thiserror = "=2.0.21"
tokio = { version = "=1.54.1", features = ["rt", "net", "time", "io-util"] }
tray-icon = "=0.26.1"
global-hotkey = "=0.9.0"
gtk = "=0.18.2"
ashpd = { version = "=0.13.13", features = ["screencast"] }
pipewire = "=0.10.1"
cpal = "=0.18.2"
windows-capture = "=2.0.1"
tao = "=0.37.2"
