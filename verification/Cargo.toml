[package]
name = "fmi2"
version = "0.1.0"
edition = "2021"
publish = false

[dependencies]
quick-xml = "0.31"
handlebars = "4"
serde = { version = "1", features = ["derive"] }
serde_json = "1"
uuid = { version = "1", features = ["v4"] }
zip = { version = "0.6", default-features = false }
dlopen = "0.1"
dlopen_derive = "0.1"
darling = "0.20"
syn = { version = "2", features = ["full"] }
quote = "1"
proc-macro2 = "1"
