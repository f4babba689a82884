[package]
name = "ruma_rtc"
version = "0.1.0"
edition = "2021"
publish = false

[dependencies]
js_int = { version = "0.2", features = ["serde"] }
serde = { version = "1", features = ["derive"] }
serde_json = "1"
