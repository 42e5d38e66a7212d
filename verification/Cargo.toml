[package]
name = "kbd_verbs"
version = "0.1.0"
edition = "2021"
publish = false

[dependencies]
thirtyfour = "*"
tokio = { version = "1", features = ["macros", "rt-multi-thread"] }
