[package]
name = "weather_station"
version = "0.1.0"
edition = "2021"
publish = false

[dependencies]
rppal = "0.14"
bmp280 = "*"
clap = { version = "4", features = ["derive"] }
