[package]
name = "edge_led"
version = "0.1.0"
edition = "2021"
publish = false

[dependencies]
smart-leds = "*"
rgb = "*"
esp-hal = "*"
esp-hal-smartled = "*"
esp-println = "*"
esp-bootloader-esp-idf = "*"
