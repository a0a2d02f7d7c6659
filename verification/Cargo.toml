[package]
name = "user_thread"
version = "0.1.0"
edition = "2021"
publish = false

[dependencies]
xmas-elf = "0.7"
trapframe = "*"
spin = "0.5"
