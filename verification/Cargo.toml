[package]
name = "luhbots"
version = "0.3.0"
edition = "2021"
publish = false

[dependencies]
atsam4e16e-pac = "=0.3.1"
cobs = { version = "=0.2.3", default-features = false }
cortex-m = "=0.7.10"
crc = "=3.4.0"
embedded-hal = { version = "=0.2.7", features = ["unproven"] }
fixed = "1"
fugit = "=0.3.9"
heapless = "=0.7.17"
nb = "=1.1.0"
num-traits = { version = "=0.2.19", default-features = false }
postcard = "=1.1.3"
serde = { version = "=1.0.229", default-features = false, features = ["derive"] }
smoltcp = { version = "=0.9.1", default-features = false, features = ["medium-ethernet", "proto-ipv4", "proto-igmp", "socket-udp", "socket-dhcpv4"] }
usb-device = "=0.2.9"
usbd-serial = "=0.1.1"
vcell = "=0.1.3"
void = { version = "=1.0.2", default-features = false }
