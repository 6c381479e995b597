[package]
name = "yuki_daemon"
version = "0.1.0"
edition = "2021"
publish = false

[dependencies]
anyhow = "*"
chrono = "*"
fluent = "*"
glob = "*"
inotify = "*"
intl-memoizer = "*"
kobject-uevent = "*"
log = "*"
log4rs = "*"
netlink-sys = "*"
nix = { version = "*", features = ["fs", "inotify", "user", "process", "event"] }
once_cell = "*"
rusqlite = { version = "*", features = ["bundled"] }
serde = { version = "*", features = ["derive"] }
serde_yaml = "*"
