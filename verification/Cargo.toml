[package]
name = "diagram_canvas"
version = "0.1.0"
edition = "2021"
publish = false

[dependencies]
petgraph = "=0.7.1"
egui = "=0.30.0"
eframe = { version = "=0.30.0", default-features = false, features = ["glow", "x11", "default_fonts", "persistence"] }
serde = { version = "1", features = ["derive"] }
serde_json = "1"
rfd = { version = "=0.15.4", default-features = false, features = ["xdg-portal", "tokio"] }
tokio = { version = "1", features = ["rt-multi-thread"] }
env_logger = "0.11"
log = "0.4"
