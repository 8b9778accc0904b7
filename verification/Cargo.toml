[package]
name = "xob64"
version = "0.1.0"
edition = "2021"
publish = false

[dependencies]
bad64 = "*"
iced-x86 = { version = "*", features = ["code_asm"] }
object = "*"
num-traits = "*"
nix = "*"
