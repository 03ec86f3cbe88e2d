[package]
name = "wordle_ncurses"
version = "0.1.0"
edition = "2021"
publish = false

[dependencies]
ncurses = { version = "=5.101.0", features = ["panel"] }
rand = "=0.7.3"
rust-embed = "=6.8.1"
structopt = "=0.3.26"
