[package]
name = "egui_tetra"
version = "0.1.0"
edition = "2021"
publish = false

[dependencies]
copypasta = "=0.7.1"
egui = "=0.16.1"
open = "=1.7.1"
tetra = { version = "=0.7.0", default-features = false }
