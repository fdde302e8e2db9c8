[package]
name = "portly"
version = "0.1.0"
edition = "2021"
publish = false

[dependencies]
anyhow = "1"
bollard = "*"
chrono = "0.4"
clap = { version = "4", features = ["derive"] }
colored = "*"
ctrlc = "3"
dirs = "*"
humantime = "2"
indicatif = "*"
netstat2 = "*"
serde = { version = "1", features = ["derive"] }
serde_json = "1"
sysinfo = "*"
tabled = "*"
terminal_size = "*"
thiserror = "*"
tokio = { version = "1", features = ["macros", "rt-multi-thread"] }
toml = "*"
unicode-width = "*"
