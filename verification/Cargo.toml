[package]
name = "date_util"
version = "0.1.0"
edition = "2021"
publish = false

[dependencies]
chrono = "*"
libc = "*"
errno = "*"
clap = "*"
