[package]
name = "render_steps"
version = "0.1.0"
edition = "2021"
publish = false

[dependencies]
glium = { version = "=0.36.0", default-features = false }
glium-types = { version = "=0.7.1", default-features = false, features = ["glium"] }
