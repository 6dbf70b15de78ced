[package]
name = "virtio_mem"
version = "0.1.0"
edition = "2021"
publish = false

[dependencies]
serde = { version = "1", features = ["derive"] }
serde_json = "1"
thiserror = "*"
displaydoc = "*"
libc = "0.2"
vm-memory = { version = "*", features = ["backend-mmap"] }
vmm-sys-util = "*"
