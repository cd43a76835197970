[package]
name = "pico-racer"
version = "0.1.0"
edition = "2021"
publish = false

[dependencies]
glam = "*"
libm = "0.2"
heapless = "0.8"
thiserror = "*"
clap = { version = "4", features = ["derive"] }
env_logger = "*"
log = "0.4"
image = { version = "*", default-features = false, features = ["png"] }
tobj = "*"
embedded-hal = "1"
cortex-m = "0.7"
defmt = "*"
rp235x-hal = "*"
