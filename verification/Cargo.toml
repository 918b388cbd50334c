[package]
name = "embedded_declarative_ui"
version = "0.1.0"
edition = "2021"
publish = false

[dependencies]
embedded-graphics = "=0.8.2"
u8g2-fonts = "=0.8.0"
