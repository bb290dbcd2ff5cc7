//! Deterministic generator of synthetic front-end apps for benchmarking a
//! bundler: a ternary tree of component modules shaped by a module budget, a
//! directory budget, a dynamic-import budget and a flatness knob, plus the
//! fixed entry files that make the tree a runnable app.
//!
//! The library lays out and renders every file; writing them to disk is left
//! to the caller.

pub mod decision;
pub mod tree;
pub mod laws;
pub mod render;
pub mod builder;
pub mod bootstrap;
pub mod env;
