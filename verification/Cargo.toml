[package]
name = "eisen"
version = "0.1.0"
edition = "2021"
publish = false

[dependencies]
crc = "=3.4.0"
uuid = { version = "=1.29.0", default-features = false }
uefi = { version = "=0.41.0", features = ["alloc"] }
uefi-raw = "=0.17.0"
x86_64 = { version = "=0.15.5", default-features = false, features = ["instructions"] }
serde = { version = "=1.0.229", default-features = false, features = ["derive"] }
toml = "=1.1.8"
spin = "=0.12.3"
arrayvec = { version = "=0.7.8", default-features = false }
xmas-elf = "=0.10.0"
elf = { version = "=0.8.0", default-features = false }
wakatiwai-udive = "*"
