//! Static analysis core for a dual-rendering-mode component model.
//!
//! Components run either in a server-only context or in a client-interactive
//! context, chosen by a leading directive string literal. Given the parsed
//! syntax tree of one module, this library classifies the module's scope,
//! walks the tree once in depth-first pre-order, applies scope-aware
//! detection rules, and returns an ordered list of findings: boundary
//! violations (client-only capabilities called from server-only modules) and
//! optimization opportunities (await expressions in client-capable modules).
//! Parsing, directory traversal and output formatting live outside the
//! library.
pub mod detect;
pub mod engine;
pub mod finding;
pub mod laws;
pub mod scope;
pub mod tree;
pub mod walker;
