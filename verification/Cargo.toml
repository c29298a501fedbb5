[package]
name = "angulito"
version = "0.1.0"
edition = "2021"
publish = false

[dependencies]
dioxus = { version = "0.6", features = ["web"] }
js-sys = "0.3"
wasm-bindgen = "0.2"
wasm-bindgen-futures = "0.4"
web-sys = { version = "0.3", features = ["Blob", "CanvasRenderingContext2d", "Document", "DomRect", "Element", "File", "FileList", "HtmlAnchorElement", "HtmlCanvasElement", "HtmlElement", "HtmlImageElement", "HtmlInputElement", "HtmlVideoElement", "Node", "SvgElement", "Url", "Window", "console"] }
