[package]
name = "riscv_mutator"
version = "0.1.0"
edition = "2021"
publish = false

[dependencies]
libafl = "*"
libafl_bolts = "*"
clap = { version = "*", features = ["derive"] }
nix = { version = "*", features = ["signal"] }
log = "*"
serde = { version = "*", features = ["derive"] }
num-traits = "*"
libm = "*"
