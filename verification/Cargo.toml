[package]
name = "stm32f3xx_hal"
version = "0.1.0"
edition = "2021"
publish = false

[dependencies]
cortex-m = "0.7"
stm32f3 = { version = "0.12", features = ["stm32f303"] }
