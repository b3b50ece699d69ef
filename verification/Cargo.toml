[package]
name = "workspaces"
version = "0.1.0"
edition = "2021"
publish = false

[dependencies]
async-process = "*"
fslock = "*"
futures-lite = "*"
near-sandbox-utils = "*"
portpicker = "*"
serde_json = "*"
tempfile = "*"
url = "*"
