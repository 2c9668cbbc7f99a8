[package]
name = "x3f_time"
version = "0.1.0"
edition = "2021"
publish = false

[dependencies]
chrono = "0.4"
chrono-tz = "*"
kamadak-exif = "*"
clap = "2"
