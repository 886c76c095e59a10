[package]
name = "duty_cycle"
version = "0.1.0"
edition = "2021"
publish = false

[dependencies]
anyhow = "=1.0.104"
dht11 = "=0.3.1"
embedded-svc = "0.28"
esp-idf-svc = "0.51"
log = "=0.4.34"
