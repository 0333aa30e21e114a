[package]
name = "rocket_airlock"
version = "0.4.0"
edition = "2021"
publish = false

[dependencies]
rocket = { version = "=0.5.2", features = ["secrets"] }
log = "=0.4.34"
yansi = "=1.0.1"
openidconnect = "=3.5.0"
