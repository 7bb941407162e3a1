[package]
name = "magna_middleware"
version = "0.1.0"
edition = "2021"
publish = false

[dependencies]
bytemuck = "1"
clap = { version = "4", features = ["derive"] }
half = "2"
image = { version = "0.25", default-features = false, features = ["png", "jpeg"] }
parking_lot = "0.12"
thiserror = "2"
tracing = "0.1"
tracing-subscriber = { version = "0.3", features = ["env-filter", "json", "fmt"] }
