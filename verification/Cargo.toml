[package]
name = "junk_pedals"
version = "0.1.0"
edition = "2021"
publish = false

[dependencies]
cortex-m = "=0.7.10"
cortex-m-rt = "=0.7.7"
defmt-rtt = "=0.4.2"
embedded-hal = "=0.2.7"
panic-probe = "=0.3.2"
rp-pico = "=0.6.0"
serde = { version = "=1.0.229", default-features = false }
usb-device = "=0.2.9"
usbd-hid = "0.6"
