[package]
name = "frontend"
version = "0.1.0"
edition = "2021"
publish = false

[dependencies]
urlencoding = "2"
chrono = { version = "0.4", default-features = false, features = ["clock", "std"] }
wasm-bindgen = "0.2"
js-sys = "0.3"
wasm-bindgen-futures = "0.4"
gloo-utils = "0.2"
gloo-timers = "0.3"
serde = { version = "1", features = ["derive"] }
serde_json = "1"
log = "0.4"
web-sys = { version = "0.3", features = ["Window", "Document", "Element", "HtmlElement", "HtmlIFrameElement", "CssStyleDeclaration", "DomTokenList", "Node", "NodeList", "Text", "CharacterData", "Request", "RequestInit", "RequestMode", "Response", "Headers", "Location", "Storage", "DomRect", "Range", "HtmlCollection", "Event", "EventTarget", "MouseEvent", "WheelEvent", "KeyboardEvent"] }
