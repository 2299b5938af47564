[package]
name = "js_imports"
version = "0.1.0"
edition = "2021"
publish = false

[dependencies]
biome_rowan = "*"
