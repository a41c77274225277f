//! The command lines a case hands rustc: one to build the fixture's dependency
//! crate, one to compile the fixture's stub against it with Vale's typing pass
//! hooked in.

use vstd::prelude::*;

verus! {

/// `a` followed by `b`.
pub fn concat_strs(a: &str, b: &str) -> (r: String)
    ensures
        r@ == a@ + b@,
{
    let mut s = String::from_str(a);
    s.append(b);
    s
}

/// The arguments rustc is run with to compile a case: the stub source as a
/// library crate named `stub`, against the given sysroot, with the built
/// dependency available as `mycrate` and all output in the case's own
/// directory.
pub fn rustc_args(stub_path: &str, out_dir: &str, sysroot: &str, rlib_path: &str) -> (r: Vec<String>)
    ensures
        r@.len() == 9,
        r@[0]@ == "valec-rs"@,
        r@[1]@ == stub_path@,
        r@[2]@ == "--crate-type=lib"@,
        r@[3]@ == "--crate-name=stub"@,
        r@[4]@ == "--edition=2021"@,
        r@[5]@ == "--sysroot="@ + sysroot@,
        r@[6]@ == "-L"@ + out_dir@,
        r@[7]@ == "--extern=mycrate="@ + rlib_path@,
        r@[8]@ == "--out-dir="@ + out_dir@,
{
    let mut args: Vec<String> = Vec::new();
    args.push(String::from_str("valec-rs"));
    args.push(String::from_str(stub_path));
    args.push(String::from_str("--crate-type=lib"));
    args.push(String::from_str("--crate-name=stub"));
    args.push(String::from_str("--edition=2021"));
    args.push(concat_strs("--sysroot=", sysroot));
    args.push(concat_strs("-L", out_dir));
    args.push(concat_strs("--extern=mycrate=", rlib_path));
    args.push(concat_strs("--out-dir=", out_dir));
    args
}

/// The arguments rustc is run with to build a fixture's dependency crate: the
/// source as a library crate named `mycrate`, output in the case's directory.
pub fn dep_rlib_args(source_path: &str, out_dir: &str) -> (r: Vec<String>)
    ensures
        r@.len() == 6,
        r@[0]@ == source_path@,
        r@[1]@ == "--crate-type=lib"@,
        r@[2]@ == "--crate-name=mycrate"@,
        r@[3]@ == "--edition=2021"@,
        r@[4]@ == "--out-dir"@,
        r@[5]@ == out_dir@,
{
    let mut args: Vec<String> = Vec::new();
    args.push(String::from_str(source_path));
    args.push(String::from_str("--crate-type=lib"));
    args.push(String::from_str("--crate-name=mycrate"));
    args.push(String::from_str("--edition=2021"));
    args.push(String::from_str("--out-dir"));
    args.push(String::from_str(out_dir));
    args
}

} // verus!
