[package]
name = "regex_value"
version = "0.1.0"
edition = "2021"
publish = false

[dependencies]
fancy-regex = "*"
once_cell = "*"
onig = "*"
serde = "*"
serde_bytes = "*"
smallvec = "*"
bincode = "1"
