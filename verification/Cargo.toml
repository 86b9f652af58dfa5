[package]
name = "smolvm"
version = "0.1.0"
edition = "2021"
publish = false

[dependencies]
object = "*"
kvm-bindings = "*"
kvm-ioctls = "*"
libc = "*"
iced-x86 = "*"
bad64 = "*"
log = "*"
env_logger = "*"
