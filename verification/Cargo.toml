[package]
name = "rustroom"
version = "0.1.0"
edition = "2021"
publish = false

[dependencies]
image = { version = "=0.25.10", default-features = false, features = ["png", "jpeg"] }
chrono = "=0.4.45"
serde = { version = "1", features = ["derive"] }
serde_json = "=1.0.154"
rusqlite = { version = "=0.41.1", features = ["bundled"] }
directories = "=6.0.0"
kamadak-exif = "=0.6.1"
egui = "=0.36.2"
eframe = { version = "=0.36.2", default-features = false, features = ["default_fonts", "glow", "x11"] }
egui_extras = { version = "=0.36.2", features = ["file", "image"] }
egui-file-dialog = "=0.15.0"
