[package]
name = "g502hub"
version = "0.1.0"
edition = "2021"
publish = false

[dependencies]
anyhow = "=1.0.104"
clap = { version = "=4.6.7", features = ["derive"] }
serde = { version = "=1.0.229", features = ["derive"] }
serde_json = "=1.0.154"
hidapi = "=2.6.7"
core-foundation = "=0.10.1"
core-foundation-sys = "=0.8.7"
objc2 = "=0.5.3"
objc2-app-kit = { version = "=0.2.2", features = ["NSApplication", "NSResponder", "NSRunningApplication", "NSPanel", "NSWindow", "NSGraphics", "NSView", "NSControl", "NSButton", "NSSlider", "NSSegmentedControl", "NSStackView", "NSTextField", "NSScreen", "NSUserInterfaceLayout"] }
objc2-foundation = { version = "=0.2.2", features = ["NSString", "NSArray", "NSGeometry", "NSObject"] }
tray-icon = "=0.19.3"
