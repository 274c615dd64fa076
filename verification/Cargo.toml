[package]
name = "batch_kernel"
version = "0.1.0"
edition = "2021"

[dependencies]
riscv = "*"
spin = "*"
