[package]
name = "dotfiles"
version = "0.1.0"
edition = "2021"
publish = false

[dependencies]
memchr = "=2.8.3"
rand = "=0.8.8"
regex = "=1.13.1"
url = "=2.5.8"
pct-str = "=1.2.0"
time = "0.3"
tz-rs = "0.6"
