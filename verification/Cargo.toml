[package]
name = "libdnscheck"
version = "0.1.0"
edition = "2021"
publish = false

[dependencies]
anyhow = "1"
dbus = { version = "0.9", features = ["vendored"] }
dns-lookup = "1.0"
lazy_static = "1"
libc = "0.2"
log = "0.4"
stderrlog = "0.5"
structopt = "0.3"
thiserror = "1"
