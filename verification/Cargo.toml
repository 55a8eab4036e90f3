[package]
name = "proton"
version = "0.1.0"
edition = "2021"
publish = false

[dependencies]
clap = { version = "=4.6.7", features = ["derive"] }
home = "=0.5.12"
quinn = "=0.10.2"
rcgen = "=0.11.3"
rustls = { version = "=0.21.12", features = ["dangerous_configuration"] }
rustyline = "=14.0.0"
tokio = { version = "=1.53.2", features = ["full"] }
