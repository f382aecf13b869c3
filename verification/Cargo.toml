[package]
name = "relay_console"
version = "0.1.0"
edition = "2021"
publish = false

[dependencies]
crossbeam = "=0.8.5"
crossterm = "=0.26.1"
ratatui = "=0.22.0"
tui-term = "=0.1.3"
vt100 = "=0.15.2"
