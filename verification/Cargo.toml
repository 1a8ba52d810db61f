[package]
name = "systemctl_tui"
version = "0.1.0"
edition = "2021"
publish = false

[dependencies]
anyhow = "*"
clap = { version = "*", features = ["derive"] }
clipboard-anywhere = "*"
crossterm = { version = "*", features = ["event-stream"] }
directories = "*"
futures = "*"
is-wsl = "*"
ratatui = "*"
signal-hook = "*"
tokio = { version = "*", features = ["full"] }
tokio-util = "*"
tui-input = "*"
zbus = "*"
zbus_systemd = { version = "*", features = ["systemd1"] }
