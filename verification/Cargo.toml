[package]
name = "i2s_tone"
version = "0.1.0"
edition = "2021"
publish = false

[dependencies]
cortex-m-rt = "0.6"
rtt-target = { version = "0.3", features = ["cortex-m"] }
stm32f4xx-hal = { version = "0.9", features = ["stm32f411", "rt"] }
