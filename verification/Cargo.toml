[package]
name = "piano_tabs"
version = "0.1.0"
edition = "2021"
publish = false

[dependencies]
wasm-bindgen = "0.2"
web-sys = { version = "0.3", features = ["Window", "Document", "Element", "HtmlElement", "HtmlCanvasElement", "CanvasRenderingContext2d", "Storage"] }
yew = "0.18"
yew_styles = { version = "*", features = ["forms"] }
