[package]
name = "zaplib_ci"
version = "0.1.0"
edition = "2021"
publish = false

[dependencies]
rcgen = "*"
actix-web = { version = "*", features = ["openssl"] }
actix-files = "*"
clap = "*"
env_logger = "*"
futures = "*"
log = "*"
openssl = "*"
serde_json = "*"
thirtyfour = "*"
