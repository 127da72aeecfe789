[package]
name = "xenctrl"
version = "0.1.0"
edition = "2021"
publish = false

[dependencies]
libloading = "=0.8.9"
log = "=0.4.35"
xenctrl-sys = "=0.1.1"
xenvmevent-sys = "=0.1.3"
