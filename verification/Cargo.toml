[package]
name = "gifpipe"
version = "0.1.0"
edition = "2021"
publish = false

[dependencies]
structopt = "0.3"
log = "0.4"
simple_logger = "1.11"
