[package]
name = "kafka_output"
version = "0.1.0"
edition = "2021"
publish = false

[dependencies]
rdkafka = { version = "0.28", default-features = false }
pyo3 = "0.17"
