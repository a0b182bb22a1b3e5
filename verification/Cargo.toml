[package]
name = "edge_input"
version = "0.1.0"
edition = "2021"
publish = false

[dependencies]
cortex-m = "=0.7.10"
cortex-m-rt = "=0.7.7"
stm32-metapac = { version = "=21.0.0", features = ["stm32l475vg", "rt"] }
defmt = "*"
serde = { version = "1", default-features = false, features = ["derive"] }
serde-json-core = "*"
