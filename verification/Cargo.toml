[package]
name = "py_node_bridge"
version = "0.1.0"
edition = "2021"
publish = false

[dependencies]
pyo3 = "=0.20.3"
pyo3-asyncio = { version = "=0.20.0", features = ["async-std-runtime"] }
libloading = "*"
log = "*"
async-trait = "*"
serde_json = "*"
