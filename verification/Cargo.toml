[package]
name = "win_permissions"
version = "0.1.0"
edition = "2021"
publish = false

[dependencies]
winapi = { version = "0.3", features = ["accctrl", "aclapi", "minwinbase", "securitybaseapi", "winbase", "winerror", "winnt"] }
