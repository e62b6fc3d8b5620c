//! Instrumentation layer for a bytecode virtual machine: an observer
//! (inspector) can watch or override every interpreter-level event —
//! instruction step, log emission, self-destruct, frame entry and exit —
//! without changing the interpreter's instruction semantics.
//!
//! The interpreter, its base opcode handlers, the journal of state changes
//! and the frame machinery are external collaborators, reached through the
//! narrow trait interfaces in `journal`, `ctx` and `frame`. Every hook
//! invocation that this layer makes is recorded in a ghost trace of
//! [`trace::TraceEvent`] values, and the contracts of the wrappers state
//! exactly which events fire, in which order, and with which data.

pub mod ctx;
pub mod frame;
pub mod handler;
pub mod host;
pub mod inspector;
pub mod journal;
pub mod table;
pub mod trace;
pub mod types;
