[package]
name = "mini_ele"
version = "0.1.0"
edition = "2021"
publish = false

[dependencies]
spin_sleep = "*"
crossbeam = "*"

[dev-dependencies]
bincode = "1"
bytemuck = "1"
