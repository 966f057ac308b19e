[package]
name = "hd44780_lcd"
version = "0.1.0"
edition = "2021"
publish = false

[dependencies]
dht-sensor = "*"
esp-idf-svc = "*"
esp-idf-sys = "*"
