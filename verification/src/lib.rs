//! A signature linter for entity-component-system (ECS) "system" functions.
//!
//! A system function's parameter list decides what state the host framework
//! grants it. This crate inspects a model of such a parameter list — a tree of
//! type expressions — classifies every parameter against the recognized kinds
//! of system input, and produces structured diagnostics together with a
//! decision about the shape of the function to emit. Parsing source text into
//! the tree and rendering the emitted function back to tokens are left to the
//! caller; the library is a pure function from signature to verdict.

pub mod ast;
pub mod config;
pub mod diag;
pub mod entry;
pub mod filter;
pub mod laws;
pub mod names;
pub mod param;
pub mod query;
pub mod signature;
