[package]
name = "committer"
version = "0.1.0"
edition = "2021"
publish = false

[dependencies]
ansi-to-tui = "7"
anyhow = "1"
clap = { version = "4", features = ["derive"] }
crossterm = "0.28"
git2 = { version = "0.20", default-features = false }
inquire = "0.7"
miette = "7"
nerd-font-symbols = "*"
owo-colors = "4"
ratatui = "0.29"
regex = "1"
semver = "1"
serde = { version = "1", features = ["derive"] }
serde_json = "1"
tempfile = "3"
thiserror = "1"
