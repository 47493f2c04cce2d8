[package]
name = "riot_wrappers"
version = "0.9.0"
edition = "2021"
publish = false

[dependencies]
riot-sys = "=0.7.16"
crc = "=1.8.1"
hex = "=0.4.3"
nb = "=1.1.0"
embedded-hal = { version = "=0.2.7", features = ["unproven"] }
switch-hal = "=0.4.0"
rand_core = "=0.6.4"
coap-message = "=0.3.7"
coap-numbers = "=0.2.11"
fugit = "=0.3.9"
mutex-trait = "=0.2.0"
bare-metal = "=1.0.0"
critical-section = "=1.2.0"
