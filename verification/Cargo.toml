[package]
name = "nihonrs"
version = "0.1.0"
edition = "2021"
publish = false

[dependencies]
chrono = { version = "=0.4.45", features = ["serde"] }
iced = { version = "=0.14.0", default-features = false, features = ["tiny-skia", "x11", "thread-pool"] }
native_db = "=0.8.2"
native_model = "=0.4.20"
once_cell = "=1.21.4"
serde = { version = "=1.0.229", features = ["derive"] }
