[package]
name = "multiplus_ess_controller"
version = "0.1.0"
edition = "2021"
publish = false

[dependencies]
zbus = "5"
