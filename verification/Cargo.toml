[package]
name = "testutils"
version = "0.1.0"
edition = "2021"
publish = false

[dependencies]
log = "=0.4.34"
tinyvec_string = { version = "=0.3.2", features = ["alloc"] }

[dev-dependencies]
shlex = "=1.3.0"
