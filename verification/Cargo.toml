[package]
name = "ots_core"
version = "0.1.0"
edition = "2021"
publish = false

[dependencies]
uuid = "1"
bluez-async = "*"
macaddr = "1"
socket2 = "0.5"
libc = "0.2"
tokio = { version = "1", default-features = false, features = ["rt", "macros", "net", "time", "io-util", "io-std", "fs"] }
futures-util = "0.3"
thiserror = "1"
log = "0.4"
pretty_env_logger = "*"
clap = { version = "4", features = ["derive"] }
either = "1"
hex_pp = "*"
