[package]
name = "code_runner"
version = "0.1.0"
edition = "2021"
publish = false

[dependencies]
fastrand = "=2.5.0"
h2 = "=0.4.19"
hakoniwa = { version = "=1.8.0", features = ["seccomp"] }
libc = "=0.2.190"
tokio = { version = "=1.53.2", features = ["macros", "rt-multi-thread", "sync"] }
tokio-stream = "=0.1.19"
tonic = "=0.14.6"
