[package]
name = "esp-sgp41-voc-nox"
version = "0.1.0"
edition = "2021"
publish = false

[dependencies]
gas-index-algorithm = "=0.1.3"
smart-leds = "=0.4.0"
embassy-executor = "=0.7.0"
embassy-sync = "=0.6.2"
embassy-time = "=0.4.0"
embedded-hal = "=0.2.7"
static_cell = "=2.1.1"
defmt = "=1.0.1"
rtt-target = { version = "=0.6.2", features = ["defmt"] }
panic-rtt-target = { version = "=0.2.0", features = ["defmt"] }
bt-hci = "=0.3.2"
esp-hal = { version = "=1.0.0-beta.1", features = ["esp32c6", "unstable"] }
esp-hal-embassy = { version = "=0.8.1", features = ["esp32c6"] }
esp-hal-smartled = "=0.15.0"
esp-wifi = { version = "=0.14.1", features = ["esp32c6", "ble"] }
esp-alloc = "=0.8.0"
esp-bootloader-esp-idf = "=0.1.0"
