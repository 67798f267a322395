[package]
name = "pam_keepassxc"
version = "0.1.0"
edition = "2021"
publish = false

[dependencies]
anyhow = "=1.0.104"
basic-toml = "=0.1.10"
log = "=0.4.34"
nix = { version = "=0.26.4", features = ["fs", "process", "socket", "user"] }
pamsm = { version = "=0.5.5", features = ["libpam"] }
rustbus = "=0.19.3"
secrecy = "=0.10.3"
serde = { version = "=1.0.229", features = ["derive"] }
syslog = "=7.0.0"
