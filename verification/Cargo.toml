[package]
name = "window_dispatch"
version = "0.1.0"
edition = "2021"
publish = false

[dependencies]
winit = { version = "=0.30.13", default-features = false, features = ["x11"] }

[dev-dependencies]
crossbeam-utils = "=0.8.23"
