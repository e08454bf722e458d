[package]
name = "gate_control"
version = "0.1.0"
edition = "2021"
publish = false

[dependencies]
anyhow = "1"
embedded-svc = "0.28"
esp-idf-hal = "0.44"
esp-idf-svc = "0.49"
lazy_static = "1"
log = "0.4"
parking_lot = "0.12"
toml-cfg = "0.2"
