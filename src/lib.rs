//! Capturing screenshots of web pages through a browser driver.
//!
//! The driver is started on a port of the kernel's choosing; `discovery`
//! learns that port from the process's sockets (`socket`) and the kernel's
//! connection table (`tcp`). A `run::Run` then orders the calls of one capture,
//! from starting the driver to tearing everything down, and leaves making them
//! to its caller.

pub mod args;
pub mod client;
pub mod discovery;
pub mod number;
pub mod run;
pub mod socket;
pub mod tcp;

pub use args::parse_window_size;
pub use args::Output;
pub use client::Builder;
pub use client::ScreenshotOpts;
pub use run::Run;
