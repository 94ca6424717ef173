[package]
name = "ext_whisper"
version = "0.1.0"
edition = "2021"
publish = false

[dependencies]
hound = "3.5"
whisper-rs = "*"
ext-php-rs = "*"
thiserror = "2"
