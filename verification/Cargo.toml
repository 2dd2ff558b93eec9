[package]
name = "ssd1315"
version = "0.1.0"
edition = "2021"
publish = false

[dependencies]
display-interface = "0.5"
display-interface-i2c = "0.5"
display-interface-spi = "0.5"
embedded-hal = "1"
embedded-graphics-core = "0.4"
