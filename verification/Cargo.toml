[package]
name = "particle_life"
version = "0.1.0"
edition = "2021"
publish = false

[dependencies]
nannou = "*"
nannou_egui = "*"
