//! A safe, verified wrapper for invoking callables of an embedded,
//! dynamically typed host runtime.
//!
//! The wrapper validates that a value cell is callable, tracks whether it
//! borrows or owns the cell, marshals native arguments into cells, drives
//! the host's invocation bridge, and translates the bridge's status code
//! and the pending-exception slot into a typed outcome.

pub mod args;
pub mod bridge;
pub mod builtins;
pub mod bytefind;
pub mod callable;
pub mod error;
pub mod globals;
pub mod laws;
pub mod zval;

pub use args::Arg;
pub use callable::ZendCallable;
pub use error::Error;
pub use globals::ExecutorGlobals;
pub use zval::Zval;
