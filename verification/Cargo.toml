[package]
name = "puniyu_adapter_console"
version = "0.1.0"
edition = "2021"
publish = false

[dependencies]
async-trait = "=0.1.92"
puniyu_adapter = "=0.9.0"
puniyu_core = "=0.9.3"
serde_json = "=1.0.154"
