[package]
name = "gst_cam_rs"
version = "0.1.0"
edition = "2021"
publish = false

[dependencies]
directories = "5"
gstreamer = "0.23"
gstreamer-app = "0.23"
gstreamer-video = "0.23"
image = { version = "0.25", default-features = false, features = ["png"] }
serde = { version = "1", features = ["derive"] }
serde_json = "1"
