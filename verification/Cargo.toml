[package]
name = "typing_race"
version = "0.1.0"
edition = "2021"
publish = false

[dependencies]
crossterm = "0.25"
itertools = "0.10"
rand_word = "*"
serde_json = "1.0"
thiserror = "1.0"
tui = "0.19"
