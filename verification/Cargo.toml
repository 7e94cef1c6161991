[package]
name = "ion"
version = "0.1.0"
edition = "2021"
publish = false

[dependencies]
deno_core = "*"
libc = "*"
tokio = { version = "*", features = ["macros", "rt-multi-thread"] }
