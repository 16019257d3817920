[package]
name = "wasm_grate"
version = "0.3.2"
edition = "2021"
publish = false

[dependencies]
clap = "4"
colored = "2"
dialoguer = "0.11"
serde = { version = "1", features = ["derive"] }
serde_json = "1"
swc_common = "*"
swc_ecma_ast = "*"
swc_ecma_parser = "*"
swc_ecma_visit = "*"
