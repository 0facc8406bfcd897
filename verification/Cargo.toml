[package]
name = "badger_snake"
version = "0.1.0"
edition = "2021"
publish = false

[dependencies]
rand = { version = "0.8", default-features = false, features = ["small_rng"] }
embedded-graphics = "*"
embedded-graphics-simulator = "*"
embedded-hal = "0.2"
cortex-m = "*"
defmt-rtt = "*"
fugit = "*"
nb = "1"
panic-probe = "*"
pimoroni_badger2040 = "*"
uc8151 = "*"
