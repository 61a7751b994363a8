[package]
name = "livetunnel"
version = "0.1.0"
edition = "2021"
publish = false

[dependencies]
clap = { version = "4", features = ["derive"] }
confy = "*"
ctrlc = "3"
indicatif = "0.17"
inquire = { version = "*", features = ["editor"] }
lazy_static = "1"
openssh = "*"
serde = { version = "1", features = ["derive"] }
sha2 = "0.10"
tokio = { version = "1", features = ["rt-multi-thread"] }
