[package]
name = "otpgen"
version = "0.1.0"
edition = "2021"
publish = false

[dependencies]
base32 = "0.5"
hmac = "0.12"
sha1 = "0.10"
sha2 = "0.10"
wasm-bindgen = "0.2"
