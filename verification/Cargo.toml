[package]
name = "rtrackr"
version = "0.1.0"
edition = "2021"
publish = false

[dependencies]
chrono = "0.4"
crossterm = "0.17"
directories = "3"
lazy_static = "1.4"
rustbreak = { version = "2", features = ["bin_enc"] }
serde = { version = "1", features = ["derive"] }
serde_derive = "1"
tokio = { version = "1", features = ["macros", "rt-multi-thread"] }
toml = "0.5"
tui = { version = "0.9", default-features = false, features = ["crossterm"] }
x11 = { version = "2", features = ["xlib"] }
