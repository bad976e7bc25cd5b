[package]
name = "color_eyre"
version = "0.1.0"
edition = "2021"
publish = false

[dependencies]
owo-colors = "3"
backtrace = "0.3"
color-spantrace = "0.2"
indenter = "0.3"
once_cell = "1"
tracing-error = "0.2"
