[package]
name = "schema_validator"
version = "0.1.0"
edition = "2021"
publish = false

[dependencies]
async-trait = "0.1"
jsonschema = { version = "*", default-features = false, features = ["resolve-async"] }
reqwest = { version = "*", default-features = false, features = ["json"] }
serde_json = "1"
wasm-bindgen = "0.2"
wasm-bindgen-futures = "0.4"

[dev-dependencies]
regex = "1"
