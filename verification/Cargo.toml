[package]
name = "callinit"
version = "0.1.0"
edition = "2021"
publish = false

[dependencies]
serde_json = "*"
reqwest = { version = "*", default-features = false, features = ["blocking"] }
eframe = { version = "*", default-features = false, features = ["glow", "x11"] }
arboard = { version = "*", default-features = false }
dirs = "*"
