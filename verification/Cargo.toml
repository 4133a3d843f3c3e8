[package]
name = "snake_core"
version = "0.1.0"
edition = "2021"
publish = false

[dependencies]
microbit = "*"
cortex-m-rt = "*"
embedded-hal = "*"
panic-halt = "*"
