[package]
name = "nx"
version = "0.1.0"
edition = "2021"
publish = false

[dependencies]
chacha = "=0.4.0"
embedded-alloc = "=0.7.0"
object = { version = "=0.40.0", default-features = false, features = ["read_core", "elf"] }
critical-section = { version = "=1.2.0", features = ["restore-state-u8"] }
