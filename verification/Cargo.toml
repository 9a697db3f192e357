[package]
name = "window_controller"
version = "0.1.0"
edition = "2021"
publish = false

[dependencies]
winapi = { version = "0.3", features = ["winuser", "wingdi", "windef", "minwindef", "processthreadsapi", "handleapi", "winbase", "winnt"] }
