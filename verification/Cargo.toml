[package]
name = "rust_radio"
version = "0.1.0"
edition = "2021"
publish = false

[dependencies]
rtlsdr = "=0.1.4"
num = "=0.4.3"
structopt = "=0.3.26"
