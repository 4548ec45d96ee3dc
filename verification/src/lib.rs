//! Verified core of a peer-to-peer file transfer desktop application built on iroh.
//!
//! The application shell (windowing, dialogs, the iroh node itself, timers and the
//! event channel towards the user interface) performs the input and output; this
//! library holds the decisions it takes and proves them against their contracts.
pub mod text;
pub mod deps;
pub mod download;
pub mod paths;
pub mod save_path;
pub mod send;
pub mod session;
pub mod ticket;
