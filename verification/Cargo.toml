[package]
name = "clipsynk"
version = "0.1.0"
edition = "2021"
publish = false

[dependencies]
xxhash-rust = { version = "0.8", features = ["const_xxh3", "xxh3"] }
serde = { version = "1", features = ["derive"] }
serde_json = "1"
tokio = { version = "1", features = ["full"] }
uuid = { version = "1", features = ["v4", "serde"] }
socket2 = { version = "0.5", features = ["all"] }
local-ip-address = "*"
thiserror = "2"
arboard = { version = "3", default-features = false }
clipboard-master = "*"
clipboard-win = "*"
wl-clipboard-rs = "*"
wayland-clipboard-listener = "*"
uniffi = "*"
