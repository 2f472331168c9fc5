[package]
name = "sifli_hal"
version = "0.1.0"
edition = "2021"
publish = false

[dependencies]
sifli-pac = { version = "=0.2.0", features = ["sf32lb52x"] }
portable-atomic = "=1.15.0"
embassy-hal-internal = "=0.5.0"
embassy-sync = "=0.8.0"
embassy-time = "=0.5.1"
critical-section = "=1.2.0"
defmt = "=1.2.0"
