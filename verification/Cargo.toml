[package]
name = "lightcache"
version = "0.1.0"
edition = "2021"
publish = false

[dependencies]
blend = "0.6"
bytemuck = "1"
structopt = "0.3"
