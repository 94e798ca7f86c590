[package]
name = "antenna"
version = "0.1.0"
edition = "2021"
publish = false

[dependencies]
anyhow = "=1.0.104"
async-trait = "=0.1.92"
axum = { version = "=0.8.9", features = ["ws"] }
bytes = "=1.12.1"
clap = { version = "4", features = ["derive"] }
colored = "2"
dashmap = "=6.2.1"
futures = "=0.3.34"
js-sys = "0.3"
postcard = { version = "1", features = ["alloc"] }
serde = { version = "=1.0.229", features = ["derive"] }
serde-wasm-bindgen = "0.6"
serde_json = { version = "=1.0.154", features = ["preserve_order"] }
tokio = { version = "=1.54.1", features = ["macros", "net", "rt-multi-thread", "sync", "time"] }
tower-http = { version = "0.6", features = ["cors"] }
tracing = "=0.1.44"
tracing-subscriber = "0.3"
uuid = { version = "=1.29.0", features = ["serde", "v4"] }
wasm-bindgen = "0.2"
wasm-bindgen-futures = "0.4"
web-sys = { version = "0.3", features = ["BinaryType", "MessageEvent", "RtcConfiguration", "RtcDataChannel", "RtcDataChannelEvent", "RtcDataChannelState", "RtcDataChannelType", "RtcIceCandidate", "RtcIceCandidateInit", "RtcIceConnectionState", "RtcIceServer", "RtcOfferOptions", "RtcPeerConnection", "RtcPeerConnectionIceEvent", "RtcPeerConnectionState", "RtcSdpType", "RtcSessionDescription", "RtcSessionDescriptionInit", "WebSocket", "Window", "console"] }
webrtc = "=0.14.0"
