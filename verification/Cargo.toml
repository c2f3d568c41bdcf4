[package]
name = "komorebi_bar"
version = "0.1.0"
edition = "2021"
publish = false

[dependencies]
dunce = "1"
eframe = { version = "0.31", default-features = false, features = ["glow", "x11", "default_fonts"] }
egui-phosphor = "0.9"
serde = { version = "1", features = ["derive"] }
tracing = "0.1"
