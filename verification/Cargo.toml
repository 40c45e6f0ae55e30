[package]
name = "rui"
version = "0.6.0"
edition = "2021"
publish = false

[dependencies]
euclid = "0.22"
futures = "0.3"
log = "0.4"
accesskit = "0.12"
