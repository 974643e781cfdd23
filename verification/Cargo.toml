[package]
name = "playback_core"
version = "0.1.0"
edition = "2021"
publish = false

[dependencies]
ringbuf = "0.2"
cpal = "0.15"
ffmpeg-next = "6"
winit = "0.29"
softbuffer = "0.4"
