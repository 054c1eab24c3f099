[package]
name = "vga_console"
version = "0.1.0"
edition = "2021"

[dependencies]
volatile = "0.2"
