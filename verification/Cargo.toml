[package]
name = "sandbox"
version = "0.1.0"
edition = "2021"
publish = false

[dependencies]
anyhow = "1"
caps = "0.5"
fs-err = "3"
landlock = "0.4"
libc = "0.2"
seccompiler = "0.5"
thiserror = "2"
tracing = "0.1"
