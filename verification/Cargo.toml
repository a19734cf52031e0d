[package]
name = "can_trigger"
version = "0.1.0"
edition = "2021"
publish = false

[dependencies]
bxcan = "0.6"
heapless = "0.7"
embedded-time = "0.12"
cortex-m = "0.7"
cortex-m-rt = "0.7"
defmt = "0.3"
defmt-rtt = "0.3"
panic-probe = { version = "0.3", features = ["print-defmt"] }
stm32f3xx-hal = { version = "0.9", features = ["stm32f303xc", "can"] }
