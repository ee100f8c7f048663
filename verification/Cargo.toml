[package]
name = "sel4_platform"
version = "0.1.0"
edition = "2021"
publish = false

[dependencies]
memory_addr = "*"
log = "*"
kspin = "*"
lazyinit = "*"
percpu = "*"
linkme = "*"
axplat = "*"
axcpu = "*"
