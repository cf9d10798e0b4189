[package]
name = "dioxus_typst"
version = "0.1.0"
edition = "2021"
publish = false

[dependencies]
chrono = "*"
dirs = "*"
flate2 = "*"
tar = "*"
ureq = "*"
typst = "*"
typst-assets = { version = "*", features = ["fonts"] }
typst-html = "*"
dioxus = { version = "*", default-features = false, features = ["macro", "html", "signals", "hooks"] }
