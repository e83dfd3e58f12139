[package]
name = "component_interface"
version = "0.1.0"
edition = "2021"
publish = false

[dependencies]
weedle = "0.11"
syn = { version = "1", features = ["full"] }
