[package]
name = "task_local"
version = "0.1.0"
edition = "2021"
publish = false

[dependencies]
pin-project-lite = "0.2"
