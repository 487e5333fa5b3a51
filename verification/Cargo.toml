[package]
name = "retrovert_core"
version = "0.1.0"
edition = "2021"
publish = false

[dependencies]
rand = "0.8"
anyhow = "*"
cfixed-string = "*"
crossbeam-channel = "*"
libloading = "*"
parking_lot = "*"
pico-args = "*"
walkdir = "*"
