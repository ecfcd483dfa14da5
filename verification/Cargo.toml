[package]
name = "emulator_hal"
version = "0.1.0"
edition = "2021"
publish = false

[dependencies]
femtos = "=0.1.1"
fugit = "=0.3.9"
