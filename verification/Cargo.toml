[package]
name = "rover"
version = "0.1.0"
edition = "2021"
publish = false

[dependencies]
sysfs-pwm = "*"
clap = "*"
