[package]
name = "funnymic"
version = "0.1.0"
edition = "2021"
publish = false

[dependencies]
pulseaudio = "=0.3.2"
rdev = "=0.5.3"
inquire = "=0.9.4"
tokio = { version = "=1.54.1", features = ["macros", "rt-multi-thread"] }
futures = "=0.3.34"
thiserror = "=2.0.21"
com-policy-config = "*"
windows = { version = "*", features = ["Win32_Media_Audio", "Win32_System_Com", "Win32_System_Com_StructuredStorage", "Win32_Devices_FunctionDiscovery", "Win32_UI_Shell_PropertiesSystem", "Win32_Foundation", "Win32_System_Variant"] }
