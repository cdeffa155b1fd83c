[package]
name = "kayleeping"
version = "0.1.0"
edition = "2021"
publish = false

[dependencies]
aes-gcm = "=0.10.3"
pbkdf2 = "=0.12.2"
sha2 = "=0.10.9"
rand = "=0.8.5"
dirs = "=5.0.1"
dotenvy = "=0.15.7"
iced = { version = "=0.14.0", default-features = false, features = ["image-without-codecs", "tiny-skia", "x11", "tokio"] }
# PNG decoding for the iced image widget: iced is built with "image-without-codecs",
# and this line enables only the PNG codec of the `image` crate it uses.
image = { version = "=0.25.10", default-features = false, features = ["png"] }
reqwest = { version = "=0.12.28", default-features = false, features = ["rustls-tls"] }
tokio = { version = "=1.54.1", features = ["rt-multi-thread"] }
