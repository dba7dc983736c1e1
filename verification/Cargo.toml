[package]
name = "key_image_store"
version = "0.1.0"
edition = "2021"
publish = false

[dependencies]
aligned-cmov = "*"
mc-oblivious-traits = "*"
mc-oblivious-ram = "*"
mc-oblivious-map = "*"
mc-rand = "*"
