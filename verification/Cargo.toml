[package]
name = "pty_process_stream"
version = "0.1.0"
edition = "2021"
publish = false

[dependencies]
futures = "0.1"
tokio = "0.1"
tokio-pty-process = "0.4"
tokio-terminal-resize = "0.1"
