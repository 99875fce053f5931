[package]
name = "ghx"
version = "0.1.0"
edition = "2021"
publish = false

[dependencies]
anyhow = "*"
axum = "*"
clap = { version = "*", features = ["derive"] }
open = "*"
reqwest = { version = "*", default-features = false, features = ["rustls-tls"] }
thiserror = "*"
tokio = { version = "*", features = ["macros", "rt-multi-thread", "signal", "net"] }
tower-http = { version = "*", features = ["cors"] }
which = "*"
