[package]
name = "qubit_config"
version = "0.1.0"
edition = "2021"
publish = false

[dependencies]
qubit-value = { version = "=0.12.2", features = ["converter"] }
qubit-datatype = { version = "=0.14.0", features = ["converter"] }
qubit-budget = { version = "=0.10.1", features = ["json"] }
qubit-json = "=0.12.1"
serde = { version = "=1.0.229", features = ["derive"] }
serde_json = "=1.0.154"
serde_ignored = "=0.1.14"
thiserror = "=2.0.21"
