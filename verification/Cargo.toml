[package]
name = "actr_raw"
version = "0.1.0"
edition = "2021"
publish = false

[dependencies]
actr-protocol = "=0.1.8"
actr-framework = "=0.1.5"
actr-config = "=0.1.8"
async-trait = "=0.1.92"
pyo3 = "=0.27.2"
pyo3-async-runtimes = { version = "=0.27.0", features = ["tokio-runtime"] }
tokio = { version = "1", features = ["rt-multi-thread"] }
tracing = "=0.1.44"
