[package]
name = "micropad"
version = "0.1.0"
edition = "2021"
publish = false

[dependencies]
smart-leds = "0.3"
smart-leds-trait = "0.2"
apa102-spi = "0.3"
embedded-hal = { version = "0.2", features = ["unproven"] }
nb = "1"
cortex-m = "0.7"
cortex-m-rt = "0.7"
panic-halt = "0.2"
stm32f0xx-hal = { version = "0.18", features = ["stm32f042", "stm32-usbd"] }
usb-device = "0.2"
usbd-serial = "0.1"
serialport = { version = "4", default-features = false }
clap = "2"
log = "0.4"
simple_logger = "1"
