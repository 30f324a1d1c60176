[package]
name = "kernel"
version = "0.1.0"
edition = "2021"
publish = false

[dependencies]
x86_64 = { version = "=0.15.5", default-features = false, features = ["instructions"] }
log = "=0.4.35"
spin = "=0.9.9"
lazy_static = { version = "=1.5.1", features = ["spin_no_std"] }
uart_16550 = "=0.3.2"
futures = { version = "=0.3.34", default-features = false, features = ["async-await"] }
