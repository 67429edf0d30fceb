[package]
name = "creaters"
version = "0.1.0"
edition = "2021"
publish = false

[dependencies]
regex = "=1.13.1"
bcrypt = "=0.19.3"
chrono = "=0.4.45"
chrono-tz = "=0.10.4"
time = "=0.3.55"
rocket = { version = "=0.5.2", features = ["secrets"] }
rocket_dyn_templates = { version = "=0.2.0", features = ["tera"] }
diesel = { version = "=2.3.14", features = ["postgres"] }
multipart = { version = "=0.18.0", default-features = false, features = ["server"] }
serde = "=1.0.229"
serde_derive = "=1.0.229"
