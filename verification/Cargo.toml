[package]
name = "libretro-rs"
version = "0.1.0"
edition = "2021"
publish = false

[dependencies]
arbitrary-int = "*"
bitbybit = "*"
thiserror = "*"
