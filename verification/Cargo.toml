[package]
name = "program"
version = "0.1.0"
edition = "2021"
publish = false

[dependencies]
crossterm = "=0.22.1"
hound = "=3.5.1"
simplelog = "=0.11.2"
wasapi = "=0.12.0"
