[package]
name = "vue_options_to_composition"
version = "0.1.0"
edition = "2021"
publish = false

[dependencies]
regex = "1"
tree-sitter = "*"
tree-sitter-javascript = "*"
lol_html = "*"
anyhow = "1"
clap = { version = "4", features = ["derive"] }
serde = { version = "1", features = ["derive"] }
tokio = { version = "1", features = ["full"] }
toml = "*"
walkdir = "2"
