[package]
name = "the_basement"
version = "0.1.0"
edition = "2021"
publish = false
