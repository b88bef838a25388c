[package]
name = "axiom_loader"
version = "0.1.0"
edition = "2021"
publish = false

[dependencies]
log = "=0.4.34"
uefi = { version = "=0.30.0", features = ["alloc", "logger"] }
uefi-raw = "=0.6.0"
