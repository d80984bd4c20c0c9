[package]
name = "script_bridge"
version = "0.1.0"
edition = "2021"
publish = false

[dependencies]
boa_engine = "=0.15.0"
boa_gc = "=0.15.0"
gc = { version = "=0.4.1", features = ["derive"] }
