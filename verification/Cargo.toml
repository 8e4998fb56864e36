[package]
name = "build_id"
version = "0.2.1"
edition = "2021"
publish = false

[dependencies]
byteorder = "1"
once_cell = "1"
palaver = "*"
twox-hash = { version = "1", default-features = false }
uuid = "1"
