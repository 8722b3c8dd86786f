[package]
name = "album_exif"
version = "0.1.0"
edition = "2021"
publish = false

[dependencies]
little_exif = "*"
serde = { version = "1", features = ["derive"] }
serde_json = "1"
