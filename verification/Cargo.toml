[package]
name = "music_player"
version = "0.1.0"
edition = "2021"
publish = false

[dependencies]
id3 = "*"
image = "*"
rodio = { version = "*", default-features = false, features = ["flac", "mp3", "vorbis", "wav"] }
