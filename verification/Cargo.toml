[package]
name = "uiua_worklet"
version = "0.1.0"
edition = "2021"
publish = false

[dependencies]
uiua = { version = "*", default-features = false }
rustc_apfloat = "*"
bytemuck = "*"
wasm-bindgen = "*"
web-sys = { version = "*", features = ["console"] }
console_error_panic_hook = "*"
