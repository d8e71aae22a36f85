//! Call resolution and entry-point synthesis for a shading-language front end.
//!
//! The crate lowers a partially resolved, untyped call tree into a fully
//! typed module intermediate representation: it resolves type-constructor
//! calls, builtin function calls, combined image/sampler calls and
//! user-defined function calls (with overload resolution and implicit
//! widening), materialises proxy temporaries for non-addressable output
//! arguments, and finally synthesises the real stage entry functions from
//! a usage analysis of the call graph.

pub mod builtins;
pub mod calls;
pub mod constructor;
pub mod context;
pub mod error;
pub mod hir;
pub mod ir;
pub mod overload;
pub mod program;
pub mod registry;
pub mod types;
pub mod usage;
