[package]
name = "linicon-theme"
version = "1.2.0"
edition = "2021"
publish = false

[dependencies]
freedesktop_entry_parser = "1"
rust-ini = "*"
