[package]
name = "irkki"
version = "0.1.0"
edition = "2021"
publish = false

[dependencies]
color-eyre = "0.6"
flexi_logger = "*"
log = "0.4"
ratatui = "0.29"
