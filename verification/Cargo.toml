[package]
name = "dispctl"
version = "0.1.0"
edition = "2021"
publish = false

[dependencies]
clap = { version = "*", features = ["derive"] }
clap-num = "*"
drm = "*"
nix = { version = "*", features = ["ioctl", "fs", "inotify"] }
rustyline = "*"
shlex = "*"
sysfs_gpio = "*"
