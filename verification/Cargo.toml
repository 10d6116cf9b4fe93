[package]
name = "xosms"
version = "0.1.0"
edition = "2021"
publish = false

[dependencies]
dashmap = "=5.5.3"
dbus = { version = "=0.9.12", features = ["vendored"] }
dbus-crossroads = "=0.5.3"
float_duration = { version = "=0.3.3", default-features = false }
napi = { version = "=2.16.17", default-features = false, features = ["napi4", "async"] }
napi-derive = "=2.16.13"
oneshot = "=0.1.13"
souvlaki = "=0.8.3"
windows = { version = "=0.44.0", features = ["Foundation", "Media", "Media_Playback", "Storage", "Storage_Streams"] }
