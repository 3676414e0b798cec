[package]
name = "slappyshot"
version = "0.1.0"
edition = "2021"
publish = false

[dependencies]
egui = "=0.29.1"
eframe = { version = "=0.29.1", default-features = false, features = ["default_fonts", "glow", "x11"] }
image = { version = "0.25", default-features = false, features = ["png", "pnm", "jpeg"] }
imageproc = { version = "0.25", default-features = false }
ab_glyph = "0.2"
notosans = "0.1"
arboard = "3"
anyhow = "1"
chrono = "0.4"
clap = { version = "4", features = ["derive"] }
serde = { version = "1", features = ["derive"] }
toml = "0.8"
xdg = "3"
