[package]
name = "ec-demo"
version = "0.1.0"
edition = "2021"
publish = false

[dependencies]
uuid = "*"
embedded-mcu-hal = "*"
serialport = { version = "*", default-features = false }
color-eyre = "*"
crossterm = "*"
ratatui = "*"
tui-input = "*"
defmt-decoder = "*"
