[package]
name = "budget_manager"
version = "0.1.0"
edition = "2021"
publish = false

[dependencies]
bcrypt = "=0.19.3"
chrono = "=0.4.45"
diesel = { version = "=1.4.8", features = ["postgres"] }
dotenv = "=0.15.0"
rocket = { version = "0.5", features = ["secrets"] }
rocket_dyn_templates = { version = "0.2", features = ["tera"] }
serde = "=1.0.229"
serde_derive = "=1.0.229"
