[package]
name = "termcrypt"
version = "0.1.0"
edition = "2021"
publish = false

[dependencies]
anyhow = "1"
async-trait = "0.1"
ansi_term = "0.12"
chrono = "0.4"
crossterm = "0.25"
dirs = "4"
dotenv = "0.15"
ftx = "*"
futures = "0.3"
polodb_bson = "0.10"
polodb_core = "0.10"
rand = "0.8"
rust_decimal = "1"
rust_decimal_macros = "1"
rustyline = "9"
terminal_size = "0.1"
textwrap = "0.15"
tokio = { version = "1", features = ["full"] }
tui = { version = "0.19", default-features = false, features = ["crossterm"] }
unicode-width = "0.1"
