[package]
name = "schema_graph"
version = "0.1.0"
edition = "2021"
publish = false

[dependencies]
debug_stub_derive = "*"
once_cell = "1"
serde = "1"
serde_derive = "1"
serde_json = "1"
