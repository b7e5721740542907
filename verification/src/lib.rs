//! The Spine session layer: how a session's model context follows the Spine
//! coordinator, how SDK configuration is resolved, how fork context is
//! assembled and how resumed history is loaded.
//!
//! The coordinator, the Spine SDK and the thread store belong to the host.
//! The library takes their answers as arguments and decides what they amount
//! to; where the host must make a further call, the library names it.
pub mod config;
pub mod context;
pub mod error;
pub mod fork_context;
pub mod items;
pub mod resume_history;
pub mod session_runtime;
