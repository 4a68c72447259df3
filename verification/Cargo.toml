[package]
name = "autopilot"
version = "0.1.0"
edition = "2021"
publish = false

[dependencies]
gettext-rs = { version = "0.7", features = ["gettext-system"] }
gtk4 = "*"
libadwaita = { version = "*", features = ["v1_5"] }
