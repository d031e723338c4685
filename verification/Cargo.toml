[package]
name = "openblas_build"
version = "0.1.0"
edition = "2021"
publish = false

[dependencies]
anyhow = "1"
flate2 = "1"
libc = "0.2"
tar = "0.4"
thiserror = "1"
ureq = "3"
