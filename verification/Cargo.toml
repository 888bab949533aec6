[package]
name = "osutil"
version = "0.1.0"
edition = "2021"
publish = false

[dependencies]
anyhow = "1"
clap = { version = "4.5", features = ["derive", "std"], default-features = false }
ctrlc = "3"
ego-tree = "0.10"
include_dir = "0.7"
oneshot = { version = "0.1", features = ["std"], default-features = false }
portable-pty = "*"
ratatui = { version = "0.29", features = ["crossterm"], default-features = false }
serde = { version = "1", features = ["derive"], default-features = false }
temp-dir = "0.1"
time = { version = "0.3", features = ["formatting", "local-offset", "macros"], default-features = false }
toml = { version = "0.8", features = ["parse"], default-features = false }
tui-term = { version = "0.2", default-features = false }
vt100-ctt = "0.16"
which = "*"
