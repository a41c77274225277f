//! The typing-pass test suites, by name.

use vstd::prelude::*;

verus! {

/// Typing-pass tests of errors reported after region checking.
pub struct AfterRegionsErrorTests {}

/// Typing-pass tests of programs that pass region checking.
pub struct AfterRegionsTests {}

/// Typing-pass tests of generics.
pub struct CompilerGenericsTests;

/// Typing-pass tests of lambdas.
pub struct CompilerLambdaTests;

/// General typing-pass tests.
pub struct CompilerTests {}

} // verus!
