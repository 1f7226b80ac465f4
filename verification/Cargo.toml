[package]
name = "lastcmd"
version = "0.1.0"
edition = "2021"
publish = false

[dependencies]
zsh-sys = "=0.1.1"
