[package]
name = "audio_playback"
version = "0.1.0"
edition = "2021"
publish = false

[dependencies]
coreaudio-sys = "0.2"
libc = "=0.2.191"
