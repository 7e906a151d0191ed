[package]
name = "artichoke_backend"
version = "0.1.0"
edition = "2021"
publish = false

[dependencies]
ansi_term = "0.12"
bstr = "0.2"
memchr = "2"
once_cell = "1"
onig = { version = "6", default-features = false }
rand = "0.7"
rand_pcg = "0.2"
regex = "1"
rustyline = "*"
