[package]
name = "process_files_in_ftp"
version = "0.1.0"
edition = "2021"
publish = false

[dependencies]
serde = { version = "1", features = ["derive"] }
confy = "0.4"
clap = "2"
chrono = "0.4"
postgres = { version = "0.19", features = ["with-chrono-0_4"] }
ftp-client = "*"
loading = "*"
tui = "0.19"
crossterm = "0.25"
exitcode = "1"
