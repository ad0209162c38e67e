[package]
name = "relaxed_ik"
version = "0.1.0"
edition = "2021"
publish = false

[dependencies]
nalgebra = "*"
ncollide3d = "*"
