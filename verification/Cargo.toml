[package]
name = "winit"
version = "0.30.8"
edition = "2021"
publish = false

[dependencies]
objc2 = "=0.5.3"
objc2-foundation = { version = "=0.2.2", features = ["NSString", "NSGeometry", "NSThread", "NSProcessInfo", "NSValue", "NSDictionary", "NSArray", "NSRunLoop", "NSObject"] }
objc2-app-kit = { version = "=0.2.2", features = ["NSEvent", "NSResponder", "NSApplication", "NSWindow", "NSView", "NSGraphics", "NSScreen", "NSMenu", "NSMenuItem", "NSButton", "NSControl"] }
core-foundation = "=0.9.4"
