[package]
name = "backupz"
version = "0.1.0"
edition = "2021"
publish = false

[dependencies]
anyhow = "*"
app_dirs = "*"
directories = "*"
duct = "*"
serde = { version = "*", features = ["derive"] }
serde_derive = "*"
structopt = "*"
toml = "*"
whoami = "*"
