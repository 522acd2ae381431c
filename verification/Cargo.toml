[package]
name = "system76-power"
version = "1.2.1"
edition = "2021"
publish = false

[dependencies]
serde = { version = "=1.0.229", features = ["derive"] }
toml = "=0.5.11"
serde_json = "=1.0.154"
sysfs-class = "=0.1.3"
intel-pstate = "=1.0.1"
clap = { version = "=4.6.7", features = ["derive"] }
log = "=0.4.35"
fern = "=0.6.2"
anyhow = "=1.0.104"
libc = "=0.2.191"
zbus = "=3.15.2"
zvariant = "=3.15.2"
zbus_polkit = "=3.0.1"
tokio = { version = "=1.54.1", features = ["full"] }
futures-lite = "=1.13.0"
inotify = "=0.10.2"
hidapi = { version = "=2.6.7", default-features = false, features = ["linux-native-basic-udev"] }
once_cell = "=1.21.4"
