//! Sans-I/O core of a plugin runtime: many logical connections over one
//! trunk stream, and the sessions of the plugins that talk over them.
//!
//! Every payload on a trunk travels in a frame: a four-byte big-endian
//! connection id, a four-byte big-endian payload length, and the payload
//! itself. The library never touches a socket. The caller performs the I/O
//! and reports what happened; the library keeps the state and answers with
//! what to do next.
//!
//! * [`frame`]: the frame codec.
//! * [`registry`]: which endpoint serves which connection.
//! * [`mux`]: the multiplexer and its two reader loops, step by step.
//! * [`stream`]: what the steps add up to, end to end.
//! * [`plugin`]: plugin sessions, their registry, and the calls to plugins.
//! * [`listener`]: the external listener.
//! * [`sandbox`]: connecting to a sandbox controller and waiting on it.
//! * [`timestamp`]: points in time as nanoseconds.
//! * [`error`]: the errors of all of them.

pub mod error;
pub mod frame;
pub mod listener;
pub mod mux;
pub mod plugin;
pub mod registry;
pub mod sandbox;
pub mod stream;
pub mod timestamp;
