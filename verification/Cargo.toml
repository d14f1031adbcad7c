[package]
name = "music_player"
version = "0.1.0"
edition = "2021"
publish = false

[dependencies]
clap = "=2.34.0"
crossterm = "=0.25.0"
tui = "=0.19.0"
rodio = "=0.17.3"
mp3-duration = "0.1"
rand = "=0.8.8"
