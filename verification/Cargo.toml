[package]
name = "fastpotify"
version = "0.1.0"
edition = "2021"
publish = false

[dependencies]
egui = { version = "=0.34.3", default-features = false, features = ["default_fonts"] }
librespot-playback = { version = "=0.8.0", default-features = false, features = ["rustls-tls-webpki-roots"] }
log = "0.4"
objc2 = "0.6"
objc2-app-kit = { version = "0.3", default-features = false, features = ["std", "NSApplication", "NSGraphics", "NSResponder", "NSView", "NSVisualEffectView", "NSWindow", "NSWorkspace"] }
objc2-foundation = { version = "0.3", default-features = false, features = ["std", "NSAppleEventDescriptor", "NSAppleEventManager", "NSArray", "NSEnumerator", "NSGeometry", "NSString", "NSThread"] }
rodio = { version = "=0.21.1", default-features = false }
thiserror = "2"

[dev-dependencies]
vergen = { version = "=9.0.6", default-features = false }
