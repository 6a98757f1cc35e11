[package]
name = "srvplz"
version = "0.1.0"
edition = "2021"
publish = false

[dependencies]
chrono = "0.4"
mime_guess = "2"
tiny_http = "0.12"
urlencoding = "2"
