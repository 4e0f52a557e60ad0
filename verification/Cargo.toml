[package]
name = "practice_tool"
version = "0.1.0"
edition = "2021"
publish = false

[dependencies]
hex = "=0.4.3"
toml = "=1.1.8"
serde_json = "=1.0.154"
tracing-subscriber = "=0.3.23"
log = "=0.4.34"
log-panics = "=2.1.0"
open = "=5.4.5"
const_format = "=0.2.37"
widestring = "=1.2.1"
zip = { version = "=9.0.5", default-features = false, features = ["deflate"] }
imgui = "=0.12.0"
windows = { version = "0.58", features = ["Win32_Foundation", "Win32_Security", "Win32_System_Threading", "Win32_System_Memory", "Win32_System_LibraryLoader", "Win32_System_Diagnostics_Debug", "Win32_System_Console", "Win32_UI_WindowsAndMessaging", "Win32_UI_Input_KeyboardAndMouse", "Win32_UI_Input_XboxController"] }
