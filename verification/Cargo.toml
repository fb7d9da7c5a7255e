[package]
name = "dyxel_render_vello"
version = "0.1.0"
edition = "2021"
publish = false

[dependencies]
log = "0.4"
