[package]
name = "ravel-tui"
version = "0.1.0"
edition = "2021"
publish = false

[dependencies]
ratatui = "0.29"
tui-input = "0.11"
throbber-widgets-tui = "0.8"
ravel = "*"
paste = "1"
