[package]
name = "martini"
version = "0.1.0"
edition = "2021"
publish = false

[dependencies]
rand = "0.8"
noise = "0.9"
serde = { version = "1", features = ["derive"] }
serde_json = "1"
toml = "0.8"
log = "0.4"
env_logger = "0.11"
egui = { version = "0.28", default-features = false, features = ["default_fonts"] }
egui_plot = "0.28"
