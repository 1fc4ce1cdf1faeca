[package]
name = "apple_events"
version = "0.1.0"
edition = "2021"
publish = false

[dependencies]
encoding = "=0.2.33"
four-char-code = "=0.0.5"
libc = "=0.2.191"
