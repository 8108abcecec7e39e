[package]
name = "orbit_sim"
version = "0.1.0"
edition = "2021"
publish = false

[dependencies]
sgp4 = "*"
serde_json = "1"
macroquad = "*"
eframe = { version = "*", default-features = false, features = ["glow", "x11", "default_fonts"] }
reqwest = "*"
tokio = { version = "1", features = ["rt-multi-thread", "macros"] }
dotenv = "*"
