[package]
name = "building_blocks"
version = "0.1.0"
edition = "2021"
publish = false

[dependencies]
glam = { version = "=0.34.2", features = ["serde"] }
indexmap = "=2.14.2"
dashmap = "=6.2.1"
generational-arena = "=0.2.9"
ron = "=0.12.3"
serde = { version = "=1.0.229", features = ["derive"] }
smol = "=2.0.2"
futures = "=0.3.34"
tracing = "=0.1.44"
tracing-subscriber = "=0.3.23"
async-trait = "=0.1.92"
