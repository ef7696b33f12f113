[package]
name = "jwctl"
version = "0.1.0"
edition = "2021"
publish = false

[dependencies]
anyhow = "*"
clap = { version = "*", features = ["derive"] }
config = "*"
crossterm = "*"
home = "*"
inquire = "*"
log = "*"
open = "*"
ratatui = "*"
reqwest = { version = "*", default-features = false, features = ["blocking", "json", "cookies"] }
reqwest_cookie_store = "*"
serde = { version = "*", features = ["derive"] }
serde_json = "*"
simplelog = "*"
strum_macros = "*"
url = "*"
urlencoding = "*"
