//! A verified core for a callback-driven native windowing layer.
//!
//! The native library reports errors through a callback, delivers window
//! events through per-window callbacks fired inside its event pump, and keeps
//! window hints as global state. This crate holds the logic around those
//! channels: it translates native error codes into typed errors, turns raw
//! callback arguments into typed events, routes them to per-window queues,
//! and tracks the session's windows and pending hints. The native calls
//! themselves are made by the embedding program, which hands the outcome of
//! each call to this crate as plain values.

pub mod error;
pub mod hint;
pub mod event;
pub mod session;
pub mod version;

pub use error::{Error, ErrorKind, ErrorState};
pub use event::{Callback, Event, EventQueue};
pub use hint::{Profile, WindowHint};
pub use session::{init, Delivery, Glfw, Window, WindowRequest};
pub use version::{format_version, is_bound_version, version_agrees};
