[package]
name = "text_tools"
version = "0.1.0"
edition = "2021"
publish = false

[dependencies]
base64 = "=0.13.1"
grex = "=1.1.0"
md-5 = "=0.9.1"
num-bigint = "=0.4.8"
sha-1 = "=0.9.8"
sha2 = "=0.9.9"
url = "=2.5.8"
urlencoding = "=1.3.3"
wasm-bindgen = "=0.2.129"
wasm-logger = "=0.2.0"
web-sys = { version = "=0.3.106", features = ["DomTokenList", "Element", "HtmlAnchorElement", "HtmlElement", "HtmlInputElement", "HtmlTextAreaElement", "Node", "Window"] }
yew = "=0.17.4"
yew-router = "=0.14.0"
