[package]
name = "cam_provider"
version = "0.1.0"
edition = "2021"
publish = false

[dependencies]
anyhow = "1"
gstreamer = "0.16"
gstreamer-app = "0.16"
gstreamer-video = "0.16"
image = { version = "0.23", default-features = false }
