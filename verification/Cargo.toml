[package]
name = "moveos_gas"
version = "0.1.0"
edition = "2021"
publish = false

[dependencies]
move-core-types = "=0.0.3"
once_cell = "1"
serde = { version = "1", features = ["derive"] }
