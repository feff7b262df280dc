[package]
name = "term_color_adapter"
version = "0.1.0"
edition = "2021"
publish = false

[dependencies]
anstyle = "*"
lru = "*"
os_info = { version = "*", default-features = false }
palette = "*"
termina = "*"
termini = "*"
