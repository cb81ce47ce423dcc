[package]
name = "move_unit_test"
version = "0.1.0"
edition = "2021"
publish = false

[dependencies]
move-core-types = "*"
move-lang = "*"
structopt = "*"
