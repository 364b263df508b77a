[package]
name = "gpt_commit"
version = "0.1.0"
edition = "2021"
publish = false

[dependencies]
dotenv = "0.15"
futures-util = "*"
git2 = { version = "*", default-features = false }
indicatif = "*"
inquire = "*"
normpath = "*"
os-version = "*"
reqwest = { version = "*", default-features = false, features = ["json", "stream"] }
serde = { version = "*", features = ["derive"] }
serde_json = "*"
term_size = "*"
tokio = { version = "*", features = ["macros", "rt-multi-thread", "time"] }
toml = "*"
