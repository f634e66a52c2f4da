[package]
name = "waw"
version = "0.1.0"
edition = "2021"
publish = false

[dependencies]
gloo = "0.4"
js-sys = "0.3"
serde = { version = "1", features = ["derive"] }
serde_json = "1"
wasm-bindgen = "0.2"
web-sys = { version = "0.3", features = ["DataTransfer", "Document", "DragEvent", "Element", "Event", "EventTarget", "HtmlElement", "MouseEvent", "Node", "PointerEvent", "Touch", "TouchEvent", "TouchList", "Window"] }
yew = "0.19"
