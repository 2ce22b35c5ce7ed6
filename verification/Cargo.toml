[package]
name = "trade_hud"
version = "0.1.0"
edition = "2021"
publish = false

[dependencies]
conrod_core = "*"
vek = "*"
