[package]
name = "chess_core"
version = "0.1.0"
edition = "2021"
publish = false

[dependencies]
futures = "0.3"
js-sys = "0.3"
serde = { version = "1", features = ["derive"] }
serde-wasm-bindgen = "0.6"
wasm-bindgen = "0.2"
wasm-bindgen-futures = "0.4"
web-sys = { version = "0.3", features = ["Document", "DomTokenList", "Element", "Event", "EventTarget", "HtmlCollection", "HtmlElement", "HtmlImageElement", "MouseEvent", "Node", "NodeList", "Window", "console"] }
