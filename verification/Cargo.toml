[package]
name = "uhyve"
version = "0.1.0"
edition = "2021"
publish = false

[dependencies]
core_affinity = "0.5"
gdbstub = "0.5"
gdbstub_arch = "0.1"
kvm-bindings = "*"
kvm-ioctls = "*"
log = "0.4"
x86_64 = { version = "0.14", default-features = false }
