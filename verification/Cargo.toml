[package]
name = "hook_variables"
version = "0.1.0"
edition = "2021"
publish = false

[dependencies]
anyhow = "=1.0.104"
# The key type of liquid's objects, named to hold it at 2.0.2: from 2.0.4 on it
# needs Rust 1.96.
kstring = "=2.0.2"
liquid = "=0.26.11"
liquid-core = "=0.26.11"
regex = "=1.13.1"
rhai = "=1.27.0"
