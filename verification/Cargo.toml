[package]
name = "keypoint"
version = "0.1.0"
edition = "2021"
publish = false

[dependencies]
rmk = { version = "=0.9.0", default-features = false, features = ["_ble", "display", "split", "storage", "vial", "watchdog"] }
embassy-executor = "=0.10.0"
embassy-futures = "=0.1.2"
embassy-nrf = { version = "=0.11.0", features = ["nrf52840", "time-driver-rtc1", "gpiote", "unstable-pac", "time"] }
embassy-time = { version = "=0.5.1", features = ["tick-hz-32_768"] }
embedded-graphics = "=0.8.2"
embedded-hal = "=1.0.0"
embedded-hal-async = "=1.0.0"
heapless = "=0.8.0"
libm = "=0.2.16"
nrf-mpsl = { version = "=0.4.0", features = ["nrf52840"] }
nrf-sdc = { version = "=0.4.0", features = ["nrf52840"] }
static_cell = "=2.1.1"
