[package]
name = "nes_emu"
version = "0.1.0"
edition = "2021"
publish = false

[dependencies]
clap = "2"
clock_ticks = "*"
minifb = "*"
