[package]
name = "vaja_1"
version = "0.1.0"
edition = "2021"
publish = false

[dependencies]
eframe = "0.17"
egui = "0.17"
instant = "0.1"
ndarray = "0.15"
rand = "0.8"
