[package]
name = "rainbow_led"
version = "0.1.0"
edition = "2021"
publish = false

[dependencies]
anyhow = "*"
log = "*"
esp-idf-svc = "*"
ws2812-esp32-rmt-driver = "*"

[dev-dependencies]
hsv = "*"
