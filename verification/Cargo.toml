[package]
name = "pokemon_dv_calculator"
version = "0.1.0"
edition = "2021"
publish = false

[dependencies]
image = { version = "=0.24.9", default-features = false, features = ["png"] }
imageproc = { version = "=0.23.1", default-features = false }
csv = "=1.4.0"
serde = { version = "=1.0.229", features = ["derive"] }
serde_json = "=1.0.154"
scrap = "0.5"
show-image = { version = "0.13", features = ["image"] }
wasm-bindgen = "0.2"
