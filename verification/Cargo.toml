[package]
name = "virtio_pci"
version = "0.1.0"
edition = "2021"
publish = false

[dependencies]
libc = "*"
vm-memory = { version = "*", features = ["backend-mmap"] }
vmm-sys-util = "*"
