[package]
name = "transcribe_core"
version = "0.1.0"
edition = "2021"
publish = false

[dependencies]
eyre = "*"
once_cell = "*"
tempfile = "*"
tracing = "*"
whisper-rs = "*"
