[package]
name = "arena_survivor"
version = "0.1.0"
edition = "2021"
publish = false

[dependencies]
macroquad = "*"
roto = "*"
