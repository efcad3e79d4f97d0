[package]
name = "aranet-cli"
version = "0.1.0"
edition = "2021"
publish = false

[dependencies]
anyhow = "1"
aranet-core = "*"
aranet-types = "*"
dialoguer = "*"
serde = { version = "1", features = ["derive"] }
serde_json = "1"
tokio = { version = "1", features = ["macros", "rt", "rt-multi-thread", "signal", "time"] }
