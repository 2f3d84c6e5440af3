[package]
name = "avr_firmware"
version = "0.1.0"
edition = "2021"
publish = false
