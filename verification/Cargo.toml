[package]
name = "halpi_power"
version = "0.1.0"
edition = "2021"
publish = false

[dependencies]
crc = "=3.4.0"
smart-leds = "=0.4.0"
embassy-sync = "=0.8.0"
embassy-time = "=0.5.1"
embassy-rp = { version = "=0.10.0", features = ["rp2040"] }
cortex-m = "=0.7.10"
# Joins the firmware's tasks and polls them in turn. An executor for the
# controller cannot be built for the machine that type-checks the firmware.
embassy-futures = "=0.1.2"
embassy-boot-rp = "=0.10.0"
# The flash partitions that the firmware updater works on. The firmware lays
# them out itself, from the addresses that the linker script gives.
embassy-embedded-hal = "=0.6.0"
sequential-storage = "=8.0.2"
embedded-storage-async = "=0.4.2"
