[package]
name = "embassy-zynq7000"
version = "0.1.0"
edition = "2021"
publish = false

[dependencies]
aarch32-cpu = "*"
arbitrary-int = "2"
bitbybit = "*"
critical-section = "1"
derive-mmio = "*"
embassy-futures = "*"
embassy-hal-internal = "*"
embassy-sync = "*"
embassy-time-driver = "*"
embassy-time-queue-utils = "*"
embassy-usb-driver = "*"
embedded-hal = "1"
embedded-hal-async = "1"
embedded-hal-nb = "1"
embedded-io = "*"
embedded-io-async = "*"
embedded-sdmmc = "*"
embedded-storage = "0.3"
embedded-storage-async = "0.4"
fugit = "*"
heapless = "*"
libm = "*"
log = "0.4"
nb = "1"
once_cell = { version = "1", default-features = false, features = ["critical-section"] }
ringbuf = { version = "*", default-features = false }
static_assertions = "1"
thiserror = { version = "2", default-features = false }
vcell = "*"
