[package]
name = "speedball2_sound_player"
version = "0.1.0"
edition = "2021"
publish = false

[dependencies]
clap = { version = "4", features = ["derive"] }
egui = "0.21"
wav = "1"
