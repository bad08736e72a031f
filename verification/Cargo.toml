[package]
name = "deruler"
version = "0.1.0"
edition = "2021"
publish = false

[dependencies]
cortex-m = "=0.7.10"
cortex-m-rt = "=0.7.7"
stm32l0xx-hal = { version = "=0.10.0", features = ["mcu-STM32L071KBTx", "rt"] }
nb = "=1.1.0"
panic-halt = "=0.2.0"
panic-rtt-target = { version = "=0.1.2", features = ["cortex-m"] }
rtt-target = { version = "=0.3.1", features = ["cortex-m"] }
embedded-graphics = "=0.7.1"
ssd1306 = "=0.7.1"
alloc-cortex-m = "=0.4.4"
