[package]
name = "lexa_kernel"
version = "0.1.0"
edition = "2021"
publish = false

[dependencies]
console = "=0.15.11"
lexa-env = "=0.1.2"
lexa-fs = "=0.1.4"
lexa-logger = { version = "=0.3.2", features = ["serde"] }
lexa-prompt = "=0.1.5"
lexa-wildcard-matching = "=0.1.0"
log = "=0.4.34"
serde = { version = "=1.0.229", features = ["derive"] }
