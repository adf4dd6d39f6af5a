[package]
name = "context_builder"
version = "0.1.0"
edition = "2021"
publish = false

[dependencies]
regex = "1"
serde = { version = "1", features = ["derive"] }
serde_json = "1"
toml = "0.8"
chrono = { version = "0.4", features = ["serde"] }
pulldown-cmark = "0.10"
diesel = { version = "2", features = ["sqlite", "r2d2", "chrono"] }
r2d2 = "0.8"
rocket = "0.5"
rocket_dyn_templates = { version = "0.2", features = ["handlebars"] }
