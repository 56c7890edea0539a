[package]
name = "vsock_fuzz"
version = "0.1.0"
edition = "2021"
publish = false

[dependencies]
serde = { version = "=1.0.229", features = ["derive"] }
serde_json = "=1.0.151"

[dev-dependencies]
virtio-queue = { version = "=0.18.0", features = ["test-utils"] }
virtio-vsock = "=0.12.0"
vm-memory = { version = "=0.18.0", features = ["backend-mmap"] }
