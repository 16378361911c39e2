[package]
name = "paint"
version = "0.1.0"
edition = "2021"
publish = false

[dependencies]
js-sys = "=0.3.106"
serde = { version = "=1.0.229", features = ["derive"] }
wasm-bindgen = { version = "=0.2.129", features = ["serde-serialize"] }
web-sys = { version = "=0.3.106", features = ["console", "Document", "DomRect", "Element", "Event", "EventTarget", "HtmlCanvasElement", "HtmlDivElement", "HtmlElement", "MouseEvent", "Node", "UiEvent", "WebGl2RenderingContext", "WebGlBuffer", "WebGlFramebuffer", "WebGlProgram", "WebGlShader", "WebGlTexture", "WebGlUniformLocation", "Window"] }
