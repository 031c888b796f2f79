[package]
name = "wasm_scene"
version = "0.1.0"
edition = "2021"
publish = false

[dependencies]
fnv = "1.0"
wasm-bindgen = "0.2"
js-sys = "0.3"
web-sys = { version = "0.3", features = ["WebGlRenderingContext", "WebGlProgram", "WebGlShader", "WebGlUniformLocation"] }
