[package]
name = "corg"
version = "0.1.0"
edition = "2021"
publish = false

[dependencies]
clap = "2.33"
pulldown-cmark = "0.5"
termcolor = "1"
termion = "1.5"
tui = "0.6"
walkdir = "2"
