[package]
name = "sensor_bridge"
version = "0.1.0"
edition = "2021"
publish = false

[dependencies]
heapless = "0.8"
anyhow = "1"
rand = "0.8"
once_cell = "1"
zerocopy = "0.8"
embedded-svc = "*"
esp-idf-svc = "*"
esp-idf-hal = "*"
esp-idf-sys = "*"
esp32-nimble = "*"
