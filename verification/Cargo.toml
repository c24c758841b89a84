[package]
name = "video_pipeline"
version = "0.1.0"
edition = "2021"
publish = false

[dependencies]
ffmpeg-next = "*"
futures = "*"
rfd = "*"
