[package]
name = "exile_controller"
version = "0.1.0"
edition = "2021"
publish = false

[dependencies]
config = { version = "0.13", default-features = false, features = ["toml"] }
egui = "0.20"
egui_extras = { version = "0.20", features = ["image"] }
gilrs = "0.10"
image = { version = "0.24", default-features = false, features = ["ico", "png"] }
rdev = "0.5"
serde = { version = "1", features = ["derive"] }
