[package]
name = "music_visualizer"
version = "0.1.0"
edition = "2021"
publish = false

[dependencies]
ringbuf = "=0.3.3"
rand = "=0.10.3"
rustfft = "=6.4.1"
symphonia = { version = "=0.5.5", features = ["mp3"] }
cpal = "=0.15.3"
sdl2 = { version = "=0.38.0", features = ["ttf"] }
rfd = "=0.17.2"
