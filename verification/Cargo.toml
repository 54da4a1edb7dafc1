[package]
name = "lsf-tui"
version = "0.1.0"
edition = "2021"
publish = false

[dependencies]
clap = "2"
gstreamer = "0.16"
notify-rust = "4"
rand = "0.7"
regex = "1"
reqwest = { version = "0.10", features = ["blocking"] }
termion = "1.5"
tui = { version = "0.14", default-features = false, features = ["termion"] }
yaml-rust = "0.4"
