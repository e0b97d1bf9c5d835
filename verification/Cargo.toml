[package]
name = "maikor_cmdr"
version = "0.1.0"
edition = "2021"
publish = false

[dependencies]
anyhow = "1"
maikor-platform = "=0.1.27"
maikor-vm-file = "=0.1.9"
maikor-vm-interface = { version = "=0.1.10", features = ["rgba"] }
nanorand = "=0.7.0"
pixels-graphics-lib = "=0.3.1"
winit = "=0.25.0"
winit_input_helper = "=0.10.0"
