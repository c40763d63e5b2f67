[package]
name = "polars_vortex"
version = "0.1.0"
edition = "2021"
publish = false

[dependencies]
vortex-array = "=0.70.0"
