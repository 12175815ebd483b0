[package]
name = "flow_table"
version = "0.1.0"
edition = "2021"
publish = false

[dependencies]
fltk = "1"
anyhow = "1"
env_logger = "*"
log = "0.4"
winapi = { version = "0.3", features = ["consoleapi", "minwindef", "winnt"] }
