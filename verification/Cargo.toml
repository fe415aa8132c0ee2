[package]
name = "axcpu"
version = "0.1.0"
edition = "2021"
publish = false

[dependencies]
aarch64-cpu = "=11.2.0"
lazyinit = "=0.2.2"
memory_addr = "=0.4.1"
riscv = "=0.16.1"
x86_64 = { version = "=0.15.5", default-features = false, features = ["instructions"] }
