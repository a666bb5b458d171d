[package]
name = "radio_group"
version = "0.1.0"
edition = "2021"
publish = false

[dependencies]
tuirealm = "0.6"
