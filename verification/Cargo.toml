[package]
name = "rho-ui"
version = "0.1.0"
edition = "2021"
publish = false

[dependencies]
serde_json = "1"
makepad-widgets = "*"
