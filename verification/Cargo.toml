[package]
name = "ewrs"
version = "0.1.0"
edition = "2021"
publish = false

[dependencies]
dirs = "*"
libc = "0.2"
widestring = "*"
winapi = { version = "0.3", features = ["minwindef", "processthreadsapi", "psapi", "winnt", "winuser"] }
