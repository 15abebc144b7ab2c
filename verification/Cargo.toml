[package]
name = "sway-scratchpads"
version = "0.1.0"
edition = "2021"
publish = false

[dependencies]
dbus = { version = "0.9", features = ["futures", "vendored"] }
dbus-crossroads = "0.5"
dbus-tokio = "0.7"
dirs = "5"
fork = "0.1"
futures = "0.3"
serde = { version = "1", features = ["derive"] }
swayipc = "3"
tokio = { version = "1", features = ["macros", "rt-multi-thread"] }
toml = "0.8"
tracing = "0.1"
