[package]
name = "kuro"
version = "0.1.0"
edition = "2021"
publish = false

[dependencies]
caps = "0.5"
clap = { version = "4", features = ["derive"] }
libc = "0.2"
nix = { version = "0.30", features = ["fs", "mount", "sched", "signal", "socket", "term", "uio", "user", "hostname", "resource", "process", "ioctl"] }
oci-spec = "0.7"
serde = { version = "1", features = ["derive"] }
serde_json = "1"
syscallz = "0.17"
thiserror = "2"
