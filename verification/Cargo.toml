[package]
name = "audiopc"
version = "0.1.0"
edition = "2021"
publish = false

[dependencies]
cpal = "*"
crossbeam-channel = "*"
once_cell = "*"
reqwest = { version = "*", default-features = false, features = ["blocking"] }
rustfft = "*"
symphonia = { version = "*", features = ["mp3"] }
tempfile = "*"
