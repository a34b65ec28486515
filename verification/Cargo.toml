[package]
name = "droner"
version = "0.1.0"
edition = "2021"
publish = false

[dependencies]
cortex-m = "=0.7.10"
defmt = "=1.2.0"
defmt-rtt = "=1.3.1"
embedded-alloc = "*"
embedded-hal = "=1.0.0"
fugit = "=0.3.9"
heapless = "=0.9.3"
panic-probe = "=1.0.0"
rp235x-hal = "=0.4.0"
rtic = { version = "=2.4.0", features = ["thumbv8main-backend"] }
rtic-monotonics = { version = "=3.0.0", features = ["rp235x"] }
rtic-sync = "=1.6.0"
