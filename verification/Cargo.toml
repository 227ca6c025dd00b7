[package]
name = "lenso_project_portfolio"
version = "0.1.0"
edition = "2021"
publish = false

[dependencies]
futures = "*"
lenso = "*"
lenso-auth-sdk = "*"
lenso-capability-access-control = "*"
lenso-capability-agent-tool-provider = "*"
lenso-capability-organization-membership = "*"
lenso-capability-secrets = "*"
lenso-kernel = "*"
lenso-postgres-kit = "*"
serde = { version = "1", features = ["derive"] }
serde_json = "1"
sha2 = "*"
sqlx = { version = "*", default-features = false, features = ["postgres", "runtime-tokio", "time", "json"] }
thiserror = "*"
time = { version = "0.3", features = ["parsing", "formatting", "macros"] }
zeroize = "*"
