[package]
name = "steady_performant"
version = "0.1.0"
edition = "2021"
publish = false

[dependencies]
clap = { version = "=4.6.7", features = ["derive"] }
steady_state = { version = "=0.3.1", default-features = false, features = ["core_affinity", "core_display"] }
