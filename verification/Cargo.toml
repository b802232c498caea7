[package]
name = "linkplan"
version = "0.1.0"
edition = "2021"
publish = false

[dependencies]
dirs = "=7.0.0"
env_logger = "=0.11.11"
log = "=0.4.34"
yaml-rust2 = "=0.13.0"
