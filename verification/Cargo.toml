[package]
name = "git_event"
version = "0.1.0"
edition = "2021"
publish = false

[dependencies]
git-meta = "*"
chrono = "*"
mktemp = "*"
color-eyre = "*"
tracing = "*"
