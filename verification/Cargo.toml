[package]
name = "csgo_internal"
version = "0.1.0"
edition = "2021"
publish = false

[dependencies]
fnv = "1"
once_cell = "1"
bitflags = "1"
winapi = { version = "0.3", features = ["minwindef", "libloaderapi", "consoleapi", "winnt", "winuser"] }
rlua = "0.17"
detour = "0.7"
vtables = "0.1.0"
vtables_derive = "0.1.0"
