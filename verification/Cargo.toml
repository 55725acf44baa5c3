[package]
name = "sheldon"
version = "0.1.0"
edition = "2021"
publish = false

[dependencies]
url = "=2.5.8"
upon = "=0.11.0"
indexmap = "=2.14.2"
serde = { version = "=1.0.229", features = ["derive"] }
toml = "=1.1.8"
toml_edit = "*"
clap = { version = "=4.6.7", features = ["derive", "env"] }
clap_complete = "=4.6.11"
casual = "=0.2.0"
which = "=8.0.6"
git2 = "=0.21.0"
curl = "=0.4.51"
globwalk = "=0.9.1"
walkdir = "=2.5.0"
fmutex = "=0.3.0"
atty = "=0.2.14"
yansi = "=1.0.1"
home = "=0.5.12"
