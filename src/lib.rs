//! Backend of a small ahead-of-time compiler: scope-aware lowering of a typed
//! syntax tree into module-construction steps, source-pinned diagnostics, and
//! the decisions of the optimize-and-link build.

pub mod error;
pub mod types;
pub mod ir;
pub mod symbols;
pub mod codegen;
pub mod diagnostic;
pub mod orchestrator;
