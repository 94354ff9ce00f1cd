[package]
name = "stm32l4_hal_core"
version = "0.1.0"
edition = "2021"
publish = false

[dependencies]
cast = { version = "*", default-features = false }
cortex-m = "*"
embedded-hal = "0.2"
nb = "0.1"
stm32l4 = { version = "*", features = ["stm32l4x2"] }
ticklock = "*"
void = { version = "1", default-features = false }
