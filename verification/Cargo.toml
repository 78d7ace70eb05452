[package]
name = "autoseed"
version = "0.1.0"
edition = "2021"
publish = false

[dependencies]
tokio = { version = "*", features = ["macros", "rt-multi-thread", "time"] }
reqwest = { version = "*", default-features = false, features = ["json", "cookies"] }
futures = "*"
serde = { version = "*", features = ["derive"] }
serde_json = "*"
toml = "*"
regex = "*"
rss = "*"
select = "*"
log = "*"
log4rs = "*"
crossterm = "*"
tui = "*"
sysinfo = "*"
rev_lines = "*"
