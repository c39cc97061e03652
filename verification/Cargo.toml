[package]
name = "shield_bsp"
version = "0.1.0"
edition = "2021"
publish = false

[dependencies]
ina219 = "=0.2.1"
defmt = "=1.2.0"
defmt-rtt = "=1.3.1"
panic-probe = { version = "=1.0.0", features = ["print-defmt"] }
embassy-embedded-hal = "=0.6.0"
embassy-sync = "=0.8.0"
embassy-time = { version = "=0.5.1", features = ["defmt"] }
embedded-alloc = "*"
static_cell = "=2.1.1"
