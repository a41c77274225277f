//! How a test sets up a typing-pass compilation: which packages it builds,
//! with which options, and which oracles it may consult.

use vstd::prelude::*;
use crate::kinds::PackageCoordinate;

verus! {

/// Options shared by every compiler pass.
#[derive(Clone, Copy, Debug, PartialEq, Eq, Structural)]
pub struct GlobalOptions {
    pub sanity_check: bool,
    pub use_overload_index: bool,
    pub use_optimized_solver: bool,
    pub verbose_errors: bool,
    pub debug_output: bool,
}

/// Where the typing pass's debug output goes.
#[derive(Clone, Copy, Debug, PartialEq, Eq, Structural)]
pub enum DebugSink {
    /// Each line printed to standard output.
    Stdout,
    Discard,
}

/// Options of the typing pass.
#[derive(Clone, Copy, Debug, PartialEq, Eq, Structural)]
pub struct TypingPassOptions {
    pub global_options: GlobalOptions,
    pub debug_out: DebugSink,
    pub tree_shaking_enabled: bool,
}

/// The Rust oracle a compilation consults: the reserved package its items are
/// minted in, the Rust items the allowlist admits, and the crate being
/// compiled (whose name the oracle's log records).
#[derive(Debug)]
pub struct RustOracleConfig {
    pub package: PackageCoordinate,
    pub allowed: Vec<String>,
    pub compiling: String,
}

/// The oracles a compilation may consult.
#[derive(Debug)]
pub enum Oracles {
    /// An oracle that knows nothing.
    Nothing,
    WithRust(RustOracleConfig),
}

/// Everything a typing-pass compilation is built from.
#[derive(Debug)]
pub struct TypingPassCompilation {
    pub packages_to_build: Vec<PackageCoordinate>,
    pub code_source: Vec<String>,
    pub options: TypingPassOptions,
    pub oracles: Oracles,
}

/// The options tests run the typing pass with: every check and every debug
/// aid on, debug output to standard output, tree shaking on.
pub open spec fn spec_test_options() -> TypingPassOptions {
    TypingPassOptions {
        global_options: GlobalOptions {
            sanity_check: true,
            use_overload_index: true,
            use_optimized_solver: true,
            verbose_errors: true,
            debug_output: true,
        },
        debug_out: DebugSink::Stdout,
        tree_shaking_enabled: true,
    }
}

/// Whether a coordinate is the `test` module with no packages under it.
pub open spec fn is_test_package(c: PackageCoordinate) -> bool {
    c.module@ == "test"@ && c.packages@.len() == 0
}

/// Whether a compilation builds exactly the `test` package from `code`, with
/// the test options.
pub open spec fn is_test_compilation(c: TypingPassCompilation, code: Seq<String>) -> bool {
    &&& c.packages_to_build@.len() == 1
    &&& is_test_package(c.packages_to_build@[0])
    &&& c.code_source@ == code
    &&& c.options == spec_test_options()
}

/// The options tests run the typing pass with.
pub fn test_typing_pass_options() -> (r: TypingPassOptions)
    ensures
        r == spec_test_options(),
        r.global_options.sanity_check,
        r.global_options.use_overload_index,
        r.global_options.use_optimized_solver,
        r.global_options.verbose_errors,
        r.global_options.debug_output,
        r.debug_out == DebugSink::Stdout,
        r.tree_shaking_enabled,
{
    let global_options = GlobalOptions {
        sanity_check: true,
        use_overload_index: true,
        use_optimized_solver: true,
        verbose_errors: true,
        debug_output: true,
    };
    TypingPassOptions { global_options, debug_out: DebugSink::Stdout, tree_shaking_enabled: true }
}

/// A compilation for tests that do not exercise Rust interop: the same
/// arguments as the constructor, with an oracle that knows nothing.
pub fn typing_pass_compilation_for_test(
    packages_to_build: Vec<PackageCoordinate>,
    code_source: Vec<String>,
    typing_options: TypingPassOptions,
) -> (r: TypingPassCompilation)
    ensures
        r.packages_to_build == packages_to_build,
        r.code_source == code_source,
        r.options == typing_options,
        r.oracles is Nothing,
{
    TypingPassCompilation {
        packages_to_build,
        code_source,
        options: typing_options,
        oracles: Oracles::Nothing,
    }
}

/// The `test` module's coordinate, with no packages under it.
pub fn test_package() -> (r: PackageCoordinate)
    ensures
        is_test_package(r),
{
    PackageCoordinate { module: String::from_str("test"), packages: Vec::new() }
}

/// A compilation of `code_source` as the `test` package, with the test
/// options and no Rust oracle.
pub fn compiler_test_compilation(code_source: Vec<String>) -> (r: TypingPassCompilation)
    ensures
        is_test_compilation(r, code_source@),
        r.oracles is Nothing,
{
    let mut packages: Vec<PackageCoordinate> = Vec::new();
    packages.push(test_package());
    typing_pass_compilation_for_test(packages, code_source, test_typing_pass_options())
}

/// As `compiler_test_compilation`, but consulting the given Rust oracle.
pub fn compiler_test_compilation_with_rust_oracle(
    code_source: Vec<String>,
    rust_oracle: RustOracleConfig,
) -> (r: TypingPassCompilation)
    ensures
        is_test_compilation(r, code_source@),
        r.oracles == Oracles::WithRust(rust_oracle),
{
    let mut packages: Vec<PackageCoordinate> = Vec::new();
    packages.push(test_package());
    TypingPassCompilation {
        packages_to_build: packages,
        code_source,
        options: test_typing_pass_options(),
        oracles: Oracles::WithRust(rust_oracle),
    }
}

/// The oracle an interop case consults: items minted in the reserved `rust`
/// module under the `mycrate` package, admitting the allowlisted items.
pub fn interop_oracle(allowed: Vec<String>, compiling: String) -> (r: RustOracleConfig)
    ensures
        r.package.module@ == "rust"@,
        r.package.packages@.len() == 1,
        r.package.packages@[0]@ == "mycrate"@,
        r.allowed == allowed,
        r.compiling == compiling,
{
    let mut packages: Vec<String> = Vec::new();
    packages.push(String::from_str("mycrate"));
    RustOracleConfig {
        package: PackageCoordinate { module: String::from_str("rust"), packages },
        allowed,
        compiling,
    }
}

} // verus!
