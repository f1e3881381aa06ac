[package]
name = "viewport_rendergraph"
version = "0.1.0"
edition = "2021"
publish = false

[dependencies]
rend3 = "*"
rend3-routine = "*"
