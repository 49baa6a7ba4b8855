[package]
name = "robotcar"
version = "0.1.0"
edition = "2021"
publish = false

[dependencies]
adafruit-bluefruit-protocol = "=1.0.0"
vl53l1x-uld = "=2.0.1"
embedded-hal = "=0.2.7"
