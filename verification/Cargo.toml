[package]
name = "winregnt"
version = "0.1.0"
edition = "2021"

[dependencies]
widestring = "*"
