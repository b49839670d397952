[package]
name = "rs_keymap_parser"
version = "0.1.0"
edition = "2021"
publish = false

[dependencies]
bitflags = { version = "2", features = ["serde"] }
camino = "1"
num_enum = "0.7"
regex = "1"
serde = { version = "1", features = ["derive"] }
serde_json = "1"
