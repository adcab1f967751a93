[package]
name = "tracedbg"
version = "0.1.0"
edition = "2021"
publish = false

[dependencies]
gimli = "=0.34.0"
nix = { version = "=0.31.3", features = ["ptrace", "signal", "process", "fs"] }
object = { version = "=0.40.0", features = ["write"] }
libc = "=0.2.190"
fork = "=0.10.0"
