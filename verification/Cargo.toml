[package]
name = "pathtobonjwa"
version = "0.1.0"
edition = "2021"
publish = false

[dependencies]
byteorder = "=1.5.0"
flate2 = "=1.1.10"
chrono = { version = "=0.4.45", default-features = false, features = ["std"] }
serde = { version = "=1.0.229", features = ["derive"] }
serde_json = "=1.0.154"
walkdir = "=2.5.0"
eframe = { version = "0.31", default-features = false, features = ["default_fonts", "glow", "x11"] }
egui_plot = "0.31"
rfd = { version = "0.15", default-features = false, features = ["xdg-portal", "tokio"] }
