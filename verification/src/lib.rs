//! Startup rules of a desktop application shell.
//!
//! The shell itself (windows, event loop, the bridge to the rendered
//! interface) belongs to a GUI framework. This library holds what the program
//! decides around it: which steps bring the application up and in what order,
//! what happens when one of them fails, and what the one command offered to
//! the interface asks of its window.

pub mod devtools;
pub mod lifecycle;
pub mod plan;
