[package]
name = "wascc_actor"
version = "0.7.0"
edition = "2021"
publish = false

[dependencies]
wapc-guest = "=0.3.2"
wascc-codec = "=0.7.2"
# Not used by name. wascc-codec brings rmp-serde 0.14, which does not compile against
# rmp 0.8.15; this line holds rmp at a patch that it compiles against.
rmp = "=0.8.9"
log = "=0.4.34"
serde_json = "=1.0.154"
serde = { version = "=1.0.229", features = ["derive"] }
lazy_static = "=1.5.1"
