[package]
name = "vdf_gateway"
version = "0.1.0"
edition = "2021"
publish = false

[dependencies]
vdf = "=0.1.0"
classgroup = "=0.1.0"

[dev-dependencies]
hex = "=0.4.3"
