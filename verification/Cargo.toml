[package]
name = "log_setup"
version = "0.1.0"
edition = "2021"
publish = false

[dependencies]
chrono = "*"
env_logger = "*"
flexi_logger = "*"
gethostname = "*"
log = "*"
pnet = "*"
syslog = "*"
time = { version = "*", features = ["macros"] }
