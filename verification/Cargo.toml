[package]
name = "obsmetrics"
version = "0.1.0"
edition = "2021"
publish = false

[dependencies]
metrics = "*"
metrics-exporter-prometheus = "*"
parking_lot = "*"
