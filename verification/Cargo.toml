[package]
name = "grain_garden"
version = "0.1.0"
edition = "2021"
publish = false

[dependencies]
rand = "0.9"
rand_core = "0.9"
rand_pcg = "0.9"
egui = { version = "0.31", default-features = false, features = ["default_fonts"] }
rodio = { version = "0.20", default-features = false, features = ["wav"] }
