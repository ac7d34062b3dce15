[package]
name = "jencli"
version = "0.1.0"
edition = "2021"
publish = false

[dependencies]
regex = "*"
chrono = "*"
jenkins_api = "*"
handlebars = "*"
ansi_term = "*"
serde = { version = "*", features = ["derive"] }
structopt = "*"
hocon = "*"
dirs = "*"
failure = "*"
