[package]
name = "retour"
version = "0.1.0"
edition = "2021"
publish = false

[dependencies]
iced-x86 = { version = "=1.22.0", default-features = false, features = ["std", "decoder", "instr_info"] }
region = "=3.0.2"
syn = { version = "=3.0.9", features = ["full"] }
quote = "=1.0.47"
proc-macro2 = "=1.0.107"
