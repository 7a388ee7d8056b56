[package]
name = "emoji_bf"
version = "0.1.0"
edition = "2021"
publish = false

[dependencies]
rand = "0.8"
argparse = "0.2"
