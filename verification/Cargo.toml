[package]
name = "oneshot_broadcast"
version = "0.1.0"
edition = "2021"
publish = false

[dependencies]
futures = "0.3"
owning_ref = "0.4"
