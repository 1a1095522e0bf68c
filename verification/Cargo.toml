[package]
name = "audio_player"
version = "0.1.0"
edition = "2021"
publish = false

[dependencies]
rodio = { version = "0.21", default-features = false }
lofty = "0.22"
fltk = "1.5"
