[package]
name = "uikit_event_loop"
version = "0.1.0"
edition = "2021"
publish = false

[dependencies]
core-foundation = "0.9"
objc2 = "0.5"
objc2-foundation = { version = "0.2", features = ["NSArray", "NSEnumerator", "NSGeometry", "NSObjCRuntime", "NSProcessInfo", "NSString", "NSThread"] }
objc2-ui-kit = { version = "0.2", features = ["UIApplication", "UIResponder", "UIScreen", "UIView", "UIViewController", "UIWindow"] }
tracing = "0.1"
