[package]
name = "clocklib"
version = "0.1.0"
edition = "2021"
publish = false

[dependencies]
bitvec = "=1.1.1"
embedded-hal = "=0.2.7"
defmt = "=1.2.0"
defmt-rtt = "=1.3.1"
panic-probe = "=1.0.0"
embassy-executor = "=0.10.0"
embassy-futures = "=0.1.2"
embassy-rp = "=0.10.0"
embassy-sync = "=0.8.0"
embassy-time = "=0.5.1"
pcf8563 = "=0.1.2"
shared-bus = "=0.3.1"
static_cell = "=2.1.1"
