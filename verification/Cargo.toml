[package]
name = "weather_cache"
version = "0.1.0"
edition = "2021"
publish = false

[dependencies]
fibreq = "*"
once_cell = "1"
picodata-plugin = "*"
serde = { version = "1", features = ["derive"] }
serde_json = "1"
shors = "*"
tarantool = "*"
tlua = "*"
