[package]
name = "taskchampion_py"
version = "0.1.0"
edition = "2021"
publish = false

[dependencies]
taskchampion = { version = "=3.1.0", default-features = false, features = ["storage-sqlite", "bundled", "server-local"] }
chrono = "=0.4.45"
tokio = { version = "=1.54.1", features = ["rt"] }
tempfile = "=3.27.0"
pyo3 = { version = "=0.30.1", features = ["chrono"] }
