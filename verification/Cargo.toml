[package]
name = "lan_mouse_tray"
version = "0.1.0"
edition = "2021"
publish = false

[dependencies]
async-channel = "2"
image = { version = "0.25", default-features = false, features = ["ico", "png"] }
log = "0.4"
gtk4 = { version = "0.9", features = ["v4_2"] }
libadwaita = { version = "0.7", features = ["v1_1"] }
glib = "0.20"
ksni = "0.2"
tao = "*"
tray-icon = "*"
