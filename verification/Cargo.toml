[package]
name = "asm_dispatch"
version = "0.1.0"
edition = "2021"
publish = false

[dependencies]
capstone = "0.13"
keystone-engine = "0.1"
serde = { version = "1", features = ["derive"] }
