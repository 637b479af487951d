[package]
name = "openhcl_reseal"
version = "0.1.0"
edition = "2021"
publish = false

[dependencies]
anyhow = "1"
blocking = "1"
constant_time_eq = "=0.6.1"
futures = "0.3"
futures-concurrency = "7"
getrandom = "=0.4.3"
tracing = "0.1"
tracing-subscriber = "0.3"
windows = { version = "*", features = ["Win32_Foundation", "Win32_Security", "Win32_System_Com", "Win32_System_Ole", "Win32_System_Rpc", "Win32_System_Variant", "Win32_System_Wmi"] }
windows-sys = { version = "=0.61.2", features = ["Win32_Foundation", "Win32_System_Com", "Win32_System_Rpc"] }

[dev-dependencies]
aes = "0.8"
cbc = "0.1"
hmac = "0.12"
sha2 = "0.10"
