[package]
name = "fire_led"
version = "0.1.0"
edition = "2021"
publish = false

[dependencies]
defmt = "=1.2.0"
defmt-rtt = "=1.3.1"
embassy-executor = { version = "=0.9.1", features = ["executor-thread"] }
embassy-time = "=0.5.1"
panic-probe = "=1.0.0"
