[package]
name = "edge_stream"
version = "0.1.0"
edition = "2021"
publish = false

[dependencies]
cortex-m = "=0.7.9"
cortex-m-rt = "=0.7.7"
max7219 = "=0.4.2"
panic-halt = "=1.0.0"
stm32f3xx-hal = { version = "=0.10.0", features = ["stm32f303xc"] }
