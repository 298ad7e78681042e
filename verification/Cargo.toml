[package]
name = "lamport_signatures"
version = "0.1.0"
edition = "2021"
publish = false

[dependencies]
ring = "*"
bit = "*"
