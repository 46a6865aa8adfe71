[package]
name = "hid_enumerate"
version = "0.1.0"
edition = "2021"
publish = false

[dependencies]
winapi = { version = "0.3", features = ["errhandlingapi", "handleapi", "hidclass", "hidsdi", "minwindef", "ntdef", "setupapi", "winbase", "winnt"] }
