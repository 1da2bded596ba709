[package]
name = "shadercam"
version = "0.1.0"
edition = "2021"
publish = false

[dependencies]
serde_json = "=1.0.151"
flume = "=0.10.14"
clap = "=3.2.25"
glium = "=0.31.0"
glutin = "=0.28.0"
nokhwa = { version = "=0.10.11", default-features = false }
