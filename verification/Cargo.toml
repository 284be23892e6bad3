[package]
name = "wifi_android_connect_lib"
version = "0.1.0"
edition = "2021"
publish = false

[dependencies]
adb_client = "=1.0.7"
clap = { version = "=4.6.7", features = ["derive"] }
env_logger = "=0.11.11"
log = "=0.4.34"
mdns-sd = "=0.11.5"
nvim-oxi = { version = "=0.6.0", features = ["libuv", "neovim-0-10"] }
qrcode = { version = "=0.14.1", default-features = false }
rand = "=0.8.8"
serde = { version = "=1.0.229", features = ["derive"] }
tokio = { version = "=1.54.1", features = ["rt-multi-thread", "time"] }
zeroconf = "=0.18.0"
