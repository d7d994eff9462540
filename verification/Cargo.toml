[package]
name = "matter_services"
version = "0.1.0"
edition = "2021"
publish = false

[dependencies]
embassy-futures = "=0.1.2"
matter-bdx = "=0.3.1"
subtle = "=2.6.1"

[dev-dependencies]
aes = "=0.8.4"
ccm = "=0.5.0"
hmac = "=0.12.1"
sha2 = "=0.10.9"
