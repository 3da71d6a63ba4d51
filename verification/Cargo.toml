[package]
name = "nusc_tables"
version = "0.1.0"
edition = "2021"
publish = false

[dependencies]
serde = { version = "*", features = ["derive"] }
serde_json = "*"
memmap2 = "*"
rayon = "*"
