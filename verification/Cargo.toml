[package]
name = "promql_parser_js"
version = "0.1.0"
edition = "2021"
publish = false

[dependencies]
syn = { version = "2", features = ["full"] }
quote = "1"
serde = "1"
serde_json = "1"
promql-parser = "*"
iso8601-timestamp = "*"
wasm-bindgen = "*"
serde-wasm-bindgen = "*"
