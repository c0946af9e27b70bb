[package]
name = "phytium_hal"
version = "0.1.0"
edition = "2021"
publish = false

[dependencies]
tock-registers = "*"
kspin = "*"
lazyinit = "*"
log = "*"
memory_addr = "*"
safe-mmio = "*"
zerocopy = { version = "*", features = ["derive"] }
bitflags = "*"
