[package]
name = "mork_user_lib"
version = "0.1.0"
edition = "2021"
publish = false

[dependencies]
buddy_system_allocator = "0.13"
spin = "0.9"
