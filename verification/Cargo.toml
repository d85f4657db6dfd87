[package]
name = "node_getter"
version = "0.1.0"
edition = "2021"
publish = false

[dependencies]
tree-sitter = "=0.20.10"

[dev-dependencies]
tree-sitter-javascript = "=0.19.1"
tree-sitter-python = "=0.19.1"
tree-sitter-typescript = "=0.20.2"
