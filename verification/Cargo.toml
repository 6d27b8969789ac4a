[package]
name = "winetd"
version = "0.1.0"
edition = "2021"
publish = false

[dependencies]
config = "0.11"
log = "0.4"
mio = "0.6"
mio-extras = "2"
winapi = { version = "0.3", features = ["fileapi", "handleapi", "minwinbase", "minwindef", "namedpipeapi", "processthreadsapi", "winbase", "winnt", "winsock2"] }
windows-service = "0.6"
winlog = "0.2"
