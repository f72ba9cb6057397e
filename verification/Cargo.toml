[package]
name = "dart-typegen"
version = "0.1.0"
edition = "2021"
publish = false

[dependencies]
chumsky = "0.10"
clap = { version = "=4.6.7", features = ["derive"] }
convert_case = "0.10"
knus = "=3.4.0"
miette = "=7.6.0"
semver = "=1.0.28"
thiserror = "=2.0.21"
