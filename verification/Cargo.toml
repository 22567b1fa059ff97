[package]
name = "kernel_core"
version = "0.1.0"
edition = "2021"
publish = false

[dependencies]
pc-keyboard = "0.7"
pic8259 = "0.11"
spin = "0.9"
uart_16550 = "0.3"
x86_64 = "0.15"
