[package]
name = "womp"
version = "0.1.0"
edition = "2021"
publish = false

[dependencies]
conrod = "0.61.1"
dirs = "1.0.5"
log = "0.4"
simplelog = "0.5.3"
vst = "0.1.0"
