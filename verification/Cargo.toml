[package]
name = "gitu"
version = "0.1.0"
edition = "2021"
publish = false

[dependencies]
ansi-to-tui = "4.0.1"
crossterm = "0.27.0"
derive_more = "0.99.17"
git2 = { version = "0.18.2", default-features = false }
ratatui = "0.26.1"
