[package]
name = "knot"
version = "0.1.0"
edition = "2021"
publish = false

[dependencies]
textwrap = { version = "=0.16.4", features = ["terminal_size"] }
directories = "=6.0.0"
console = "=0.16.6"
indicatif = "=0.18.6"
tokio = { version = "=1.54.1", features = ["rt-multi-thread", "macros", "process", "time", "fs", "io-util"] }
sysinfo = "=0.40.1"
nix = { version = "=0.31.3", features = ["signal"] }
libc = "=0.2.191"
clap = { version = "=4.6.7", features = ["derive"] }
anyhow = "=1.0.104"
thiserror = "=2.0.21"
