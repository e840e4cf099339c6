[package]
name = "securom_loader"
version = "0.1.0"
edition = "2021"
publish = false

[dependencies]
anyhow = "1"
log = "0.4"
native-windows-gui = "1"
shared_memory = "0.12"
simplelog = "*"
winapi = { version = "0.3", features = ["handleapi", "libloaderapi", "memoryapi", "minwindef", "ntdef", "processthreadsapi", "windef", "winnt", "winuser"] }
