[package]
name = "ec_platform"
version = "0.1.0"
edition = "2021"
publish = false

[dependencies]
defmt = "*"
defmt-semihosting = "*"
embassy-embedded-hal = "*"
embassy-executor = "*"
embassy-imxrt = "*"
embassy-sync = "*"
embassy-time = "*"
embedded-fans-async = "*"
embedded-mcu-hal = "*"
semihosting = "*"
static_cell = "*"
tmp108 = "*"
