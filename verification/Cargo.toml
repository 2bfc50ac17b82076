[package]
name = "bbtrackball"
version = "0.1.0"
edition = "2021"
publish = false

[dependencies]
cortex-m = "=0.6.7"
cortex-m-rtic = "=0.5.9"
embedded-hal = "=0.2.7"
lpc8xx-hal = { version = "=0.8.2", features = ["845", "docs"] }
rtt-target = { version = "=0.2.2", features = ["cortex-m"] }
stm32f0xx-hal = { version = "=0.17.1", features = ["rt", "stm32f042", "stm32-usbd"] }
usb-device = "=0.2.9"
usbd-hid = "=0.6.2"
usbd-hid-device = "=0.1.1"
