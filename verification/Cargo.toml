[package]
name = "omaro"
version = "0.1.0"
edition = "2021"
publish = false

[dependencies]
hashbrown = "*"
anstream = "*"
anstyle = "*"
backtrace = "*"
chrono = { version = "*", default-features = false, features = ["std", "clock"] }
clap = { version = "*", features = ["derive", "env"] }
color-eyre = { version = "*", default-features = false }
crossterm = "*"
dirs = "*"
include_dir = "*"
open = "*"
os_info = "*"
r2d2 = "*"
r2d2_sqlite = { version = "*", features = ["bundled"] }
ratatui = "*"
reqwest = { version = "*", features = ["blocking", "json"] }
rusqlite = "*"
rusqlite_migration = { version = "*", features = ["from-directory"] }
serde = { version = "*", features = ["derive"] }
textwrap = "*"
toml = "*"
uuid = { version = "*", features = ["v4"] }
