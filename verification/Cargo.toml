[package]
name = "pipebuf"
version = "0.1.0"
edition = "2021"
publish = false

[dependencies]
humansize = "1"
failure = "0.1"
structopt = "0.3"
