[package]
name = "led_controller"
version = "0.1.0"
edition = "2021"
publish = false

[dependencies]
palette = "=0.7.7"
rppal = "=0.22.1"
eyre = "=0.6.14"
tracing = "=0.1.44"
tracing-subscriber = "=0.3.23"
color-backtrace = "=0.7.4"
