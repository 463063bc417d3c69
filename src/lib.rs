//! Span-lifecycle and trace-context protocol for instrumenting request handling.
//!
//! The ambient trace context is an explicit, task-owned [`context::ContextScope`];
//! spans are plain values whose lifecycle is tracked in ghost state, so the
//! contracts can state that each traced call starts and ends exactly one span.

pub mod context;
pub mod span;
pub mod ids;
pub mod tracer;
pub mod traceable;
pub mod execution;
pub mod propagation;
pub mod http;
