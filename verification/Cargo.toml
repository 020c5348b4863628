[package]
name = "lorawan"
version = "0.1.0"
edition = "2021"
publish = false

[dependencies]
aes = "=0.8.4"
cmac = "=0.7.2"
crc-0x8810 = "=0.1.0"
embedded-time = "=0.12.1"
get_move = "*"

[dev-dependencies]
hex = "=0.4.3"
