[package]
name = "device_checkout"
version = "0.1.0"
edition = "2021"
publish = false

[dependencies]
chrono = { version = "=0.4.45", features = ["serde"] }
validator = "=0.8.0"
clap = "=2.34.0"
stderrlog = "=0.4.3"
log = "=0.4.35"
serde = "=1.0.229"
serde_derive = "=1.0.229"
failure = "=0.1.8"
exitfailure = "=0.5.1"
diesel = { version = "=1.4.8", features = ["sqlite", "r2d2", "chrono"] }
diesel-derive-enum = { version = "=1.1.2", features = ["sqlite"] }
rocket = { version = "=0.5.2", features = ["json"] }
rocket_dyn_templates = { version = "=0.1.0", features = ["tera"] }
