[package]
name = "tts_pipeline"
version = "0.1.0"
edition = "2021"
publish = false

[dependencies]
anyhow = "=1.0.104"
axum = { version = "0.7", features = ["multipart"] }
candle-core = "=0.8.4"
candle-examples = "=0.8.4"
candle-nn = "=0.8.4"
candle-transformers = "=0.8.4"
hf-hub = "=0.4.3"
js-sys = "=0.3.106"
serde_json = "=1.0.154"
tokenizers = { version = "=0.21.4", default-features = false, features = ["onig"] }
tokio = { version = "=1.54.1", features = ["rt-multi-thread", "macros", "net"] }
tower = { version = "=0.5.3", features = ["util"] }
tower-http = { version = "=0.6.11", features = ["cors", "fs"] }
tracing-subscriber = "0.3"
wasm-bindgen = "=0.2.129"
wasm-bindgen-futures = "=0.4.79"
web-sys = { version = "=0.3.106", features = ["Blob", "BlobEvent", "BlobPropertyBag", "Document", "Element", "Event", "FileReader", "FormData", "HtmlAudioElement", "HtmlMediaElement", "MediaDevices", "MediaRecorder", "MediaStream", "MediaStreamConstraints", "Navigator", "Request", "RequestInit", "Response", "Url", "Window"] }
