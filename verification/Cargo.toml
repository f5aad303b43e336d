[package]
name = "rrd"
version = "0.1.0"
edition = "2021"
publish = false

[dependencies]
chrono = "0.4"
itertools = "0.13"
libc = "0.2"
log = "0.4"
thiserror = "1"
