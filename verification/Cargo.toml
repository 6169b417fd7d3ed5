[package]
name = "macrodeck"
version = "0.1.0"
edition = "2021"
publish = false

[dependencies]
fugit = "0.3"
embedded-hal = "0.2"
embedded-sdmmc = "0.4"
rp-pico = "0.7"
ssd1306 = "0.7"
cortex-m = "0.7"
cortex-m-rt = "0.7"
defmt = "0.3"
defmt-rtt = "0.4"
panic-probe = { version = "0.3", features = ["print-defmt"] }
finite-state-machine = "*"
usb-device = "0.2"
usbd-serial = "0.1"
