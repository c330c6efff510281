[package]
name = "render_hal_vk"
version = "0.1.0"
edition = "2021"
publish = false

[dependencies]
ash = "=0.29.0"
num-traits = "=0.2.19"
twox-hash = "=1.6.3"
spirv-reflect = "0.2"
vk-sync = "0.1"
vk-mem = "0.2"
