[package]
name = "server_supervisor"
version = "0.1.0"
edition = "2021"
publish = false
