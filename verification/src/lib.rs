//! Pointer forwarding for click-through overlay windows.
//!
//! An overlay window that ignores pointer input still wants to react to
//! hover. This library holds the decisions of that mechanism: which windows
//! are registered, when the process-wide pointer hook has to exist, which
//! windows a pointer move is reported to, and which window messages are
//! swallowed while forwarding is on. The operating-system calls themselves
//! are made by the caller, which hands their results in as plain values.
//!
//! Beside it stand the command lines of the external media tools that the
//! same application runs.

pub mod geometry;
pub mod registry;
pub mod hook;
pub mod interceptor;
pub mod transcode;
