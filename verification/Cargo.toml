[package]
name = "vrf_cards"
version = "0.1.0"
edition = "2021"
publish = false

[dependencies]
schnorrkel = "0.11"
rand = "0.8"
