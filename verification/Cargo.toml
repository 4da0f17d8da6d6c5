[package]
name = "qgo"
version = "0.1.0"
edition = "2021"
publish = false

[dependencies]
chrono = { version = "=0.4.45", features = ["serde"] }
clap = "=4.6.7"
console = "=0.16.6"
csv = "=1.4.0"
dialoguer = "=0.12.0"
dirs = "=7.0.0"
rpassword = "=7.5.4"
rustyline = "=18.0.1"
serde = { version = "=1.0.229", features = ["derive"] }
serde_json = "=1.0.151"
sqlx = { version = "=0.9.0", default-features = false, features = ["runtime-tokio", "any", "mysql", "postgres", "sqlite"] }
thiserror = "=2.0.21"
tokio = { version = "=1.53.2", features = ["macros", "rt-multi-thread", "time", "fs"] }
urlencoding = "=2.1.3"
uuid = { version = "=1.27.0", features = ["v4", "serde"] }
