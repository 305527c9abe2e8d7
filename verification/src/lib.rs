//! A small adapter that bridges an OS-level file-change notification source
//! to a synchronous, pollable queue of change events.
//!
//! The heart of the crate is a verified model of the adapter: which events a
//! callback invocation forwards under a given filtering policy, and how the
//! joint state of the source handle and the queue evolves as notifications
//! arrive, the source is stopped, and the consumer polls. The glue that wires
//! the real notification source and channel together lives in `source` behind
//! a handful of trusted declarations.

pub mod adapter;
pub mod event;
pub mod forward;
pub mod source;
