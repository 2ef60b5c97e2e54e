//! Source rewriting that makes test functions sharing a process-global
//! resource mutually exclusive.
//!
//! A test module is rewritten so that it declares one process-wide mutex,
//! and each guarded test function is rewritten so that its body first
//! acquires that mutex for the function's whole extent. The rewriting here
//! works on a plain model of the source items; turning token streams into
//! that model and back is left to the surrounding macro plumbing.

pub mod laws;
pub mod model;
pub mod rewrite;
