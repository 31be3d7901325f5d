[package]
name = "shogo"
version = "0.1.0"
edition = "2021"
publish = false

[dependencies]
futures = "=0.3.34"
js-sys = "=0.3.106"
wasm-bindgen = "=0.2.129"
wasm-bindgen-futures = "=0.4.79"
web-sys = { version = "=0.3.106", features = ["Window", "Document", "Element", "HtmlElement", "HtmlCanvasElement", "EventTarget", "Event", "UiEvent", "MouseEvent", "Performance", "Node", "DomRect", "WebGl2RenderingContext"] }
ws_stream_wasm = "=0.7.5"
