[package]
name = "spmv_oneshot"
version = "0.1.0"
edition = "2021"
publish = false

[dependencies]
abs_sync = "0.2.0"
atomex = "0.1.1"
atomic_sync = "0.2.0"
pin-utils = "0.1.0"
pin-project = "1.1"
log = "0.4"
