//! Observation harness for the typing pass's Rust-interop cases: what a case
//! observed (whether it compiled, every question the Rust oracle was asked),
//! how a typed program's kinds and callees are described the way source names
//! them, and how a case's compilation and its rustc invocations are set up.

pub mod text;
pub mod oracle;
pub mod harness;
pub mod kinds;
pub mod program;
pub mod compilation;
pub mod invocation;
pub mod suites;
pub mod laws;
