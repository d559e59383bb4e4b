[package]
name = "syntax_color"
version = "0.1.0"
edition = "2021"
publish = false

[dependencies]
serde = { version = "1", features = ["derive"] }
serde_json = "1"
toml = "*"
thiserror = "*"
libc = "0.2"
unicode-segmentation = "1"
unicode-width = "*"
tree-sitter = "*"
tree-sitter-language = "*"
tree-sitter-objectscript = "*"
tree-sitter-objectscript-playground = "*"
tree-sitter-objectscript-routine = "*"
tree-sitter-sequel = "*"
tree-sitter-python = "*"
tree-sitter-md = "*"
tree-sitter-json = "*"
tree-sitter-yaml = "*"
tree-sitter-xml = "*"
tree-sitter-css = "*"
tree-sitter-html = "*"
tree-sitter-javascript = "*"
tree-sitter-jsdoc = "*"
tree-sitter-regex = "*"
tree-sitter-toml-ng = "*"
