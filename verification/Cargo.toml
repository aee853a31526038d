[package]
name = "zsh_sys"
version = "0.1.0"
edition = "2021"
publish = false

[dependencies]
libc = "0.2"
rustix = "1"
heapless = "0.8"
num-traits = { version = "0.2", default-features = false }
bytemuck = { version = "1", features = ["derive"] }
