[package]
name = "git_downloader"
version = "0.1.0"
edition = "2021"
publish = false

[dependencies]
git2 = "0.20"

[dev-dependencies]
tempfile = "=3.27.0"
