[package]
name = "tunnel-net"
version = "0.1.0"
edition = "2021"
publish = false

[dependencies]
structopt = "0.3"
mio = { version = "0.8", features = ["os-poll", "net", "os-ext"] }
libc = "0.2"
nix = { version = "0.26", features = ["ioctl"] }
default-net = "*"
strum = "0.20"
strum_macros = "0.20"
