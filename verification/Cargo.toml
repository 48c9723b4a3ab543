[package]
name = "tabletop_tui"
version = "0.1.0"
edition = "2021"
publish = false

[dependencies]
itertools = "0.13"
crossterm = "0.28"
ratatui = "0.29"
log = "0.4"
flexi_logger = "0.29"
