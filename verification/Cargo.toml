[package]
name = "stack_string"
version = "0.1.0"
edition = "2021"
publish = false

[dependencies]
arrayvec = "*"
compact_str = "*"
smartstring = "*"
serde = "*"
postgres-types = "*"
bytes = "*"

[dev-dependencies]
rand = "0.8"
