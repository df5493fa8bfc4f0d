[package]
name = "perch"
version = "0.1.0"
edition = "2021"
publish = false

[dependencies]
dirs = "*"
eframe = { version = "*", default-features = false, features = ["glow", "default_fonts", "x11"] }
egui = { version = "*", default-features = false }
serde = { version = "1", features = ["derive"] }
sysinfo = "*"
toml = "*"
