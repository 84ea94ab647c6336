[package]
name = "dropbot"
version = "0.1.0"
edition = "2021"
publish = false

[dependencies]
heapless = { version = "=0.8.0", features = ["serde"] }
serde = { version = "=1.0.229", default-features = false, features = ["alloc", "derive"] }
libm = "=0.2.16"
glam = { version = "=0.34.2", default-features = false, features = ["libm", "serde"] }
embedded-hal = "=1.0.0"
embedded-hal-async = "=1.0.0"
embedded-hal-bus = { version = "=0.3.0", features = ["async"] }
embedded-storage = "=0.3.2"
embassy-sync = "=0.8.0"
embassy-time = "=0.5.1"
embedded-graphics = "=0.8.2"
smoltcp = { version = "=0.14.0", default-features = false, features = ["proto-ipv4", "medium-ieee802154", "socket-udp"] }
dw3000-ng = "=1.0.2"
bq25887 = "=0.1.11"
ssd1306-embassy-async = "=0.1.0"
