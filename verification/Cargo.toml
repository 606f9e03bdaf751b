[package]
name = "leptos_solana"
version = "0.1.0"
edition = "2021"
publish = false

[dependencies]
base64 = "0.22"
bincode = "1"
solana-hash = "*"
solana-pubkey = "*"
solana-transaction = { version = "*", features = ["serde"] }
solana-message = "*"
solana-instruction = "*"
solana-signature = "*"
solana-commitment-config = "*"
serde = { version = "1", features = ["derive"] }
serde_json = "1"
thiserror = "*"
wasm-bindgen = "0.2"
wasm-bindgen-futures = "0.4"
js-sys = "0.3"
web-sys = { version = "0.3", features = ["Window", "Storage", "CustomEvent", "CustomEventInit", "Event", "EventTarget", "console"] }
gloo-net = { version = "*", default-features = false, features = ["http"] }
leptos = { version = "0.8", features = ["csr"] }
bs58 = "*"
log = "0.4"
console_log = "*"
console_error_panic_hook = "0.1"
