[package]
name = "bread_world"
version = "0.1.0"
edition = "2021"
publish = false

[dependencies]
anyhow = "=1.0.104"
ellp = "=0.2.0"
log = "=0.4.34"
pico-args = "=0.5.0"
ulid = "=1.2.1"
uom = "=0.38.0"
wasm-bindgen-cli-support = "0.2"
xshell = "0.2"
