[package]
name = "gke_pullup"
version = "0.1.0"
edition = "2021"
publish = false

[dependencies]
google-cloud-container-v1 = "*"
anyhow = "1"
clap = { version = "4", features = ["derive"] }
tokio = { version = "1", features = ["macros", "rt-multi-thread", "time"] }
