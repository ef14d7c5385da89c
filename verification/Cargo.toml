[package]
name = "leptos_modal"
version = "0.1.0"
edition = "2021"
publish = false

[dependencies]
leptos = { version = "0.8", features = ["ssr"] }
leptos-use = "*"
proc-macro2 = "1"
quote = "1"
syn = { version = "2", features = ["full"] }
