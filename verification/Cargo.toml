[package]
name = "license_gen"
version = "0.1.0"
edition = "2021"
publish = false

[dependencies]
handlebars = "=6.4.4"
clap = { version = "=4.6.7", features = ["derive", "string"] }
clap-verbosity-flag = { version = "=3.0.4", default-features = false, features = ["tracing"] }
clap_complete = "=4.6.11"
clap_mangen = "=0.2.33"
color-print = "=0.3.7"
ctrlc = "=3.5.2"
current_platform = "=0.2.0"
devx-cmd = "=0.5.0"
devx-pre-commit = "=0.5.0"
num_cpus = "=1.17.0"
sha2 = "=0.10.9"
tar = "=0.4.46"
tempfile = "=3.27.0"
tracing = "=0.1.44"
tracing-subscriber = { version = "=0.3.23", features = ["env-filter"] }
zstd = { version = "=0.13.3", features = ["zstdmt"] }
