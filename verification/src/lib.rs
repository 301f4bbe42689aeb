//! Backend library for a small desktop shell that exposes two commands to a
//! JavaScript frontend: a greeting-string formatter and a window-maximize
//! action. The formatting and the command's reply logic live here; the host
//! framework's event loop, the command bridge and the windowing call itself
//! stay outside the library.

pub mod greeting;
pub mod window;

pub use greeting::greet;
pub use window::maximize_outcome;
pub use window::WindowError;
