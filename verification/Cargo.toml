[package]
name = "get_selected_text"
version = "0.1.0"
edition = "2021"
publish = false

[dependencies]
accessibility-ng = "=0.1.6"
accessibility-sys-ng = "=0.1.3"
active-win-pos-rs = "0.8"
anyhow = "1"
core-foundation = "0.9"
core-graphics = "0.22"
log = "0.4"
objc2 = "0.5"
objc2-app-kit = { version = "0.2", features = ["NSPasteboard", "NSPasteboardItem"] }
objc2-foundation = { version = "0.2", features = ["NSArray", "NSString"] }
serde = { version = "1", features = ["derive"] }
