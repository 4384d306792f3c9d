[package]
name = "procyon"
version = "0.1.0"
edition = "2021"
publish = false

[dependencies]
data-url = "=0.1.1"
retry = "=1.3.1"
fantoccini = "=0.14.2"
showata = "=0.2.0"
vega_lite_3 = "=0.3.1"
vega_lite_4 = "=0.4.2"

[dev-dependencies]
base64 = "=0.12.3"
