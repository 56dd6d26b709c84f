//! Locating the host toolchain root and assembling the host compiler's
//! command line.
//!
//! The embedding program reads the toolchain environment values and performs
//! the actual invocation; the decisions — which value wins, what command line
//! is handed over, and when the run must abort with no program produced —
//! are plain data logic and are verified here.

use vstd::prelude::*;
use vstd::string::StringExecFns;

use crate::error::ExtractError;

verus! {

/// The mathematical value of an optional textual environment value.
pub open spec fn opt_view(o: Option<String>) -> Option<Seq<char>> {
    match o {
        Some(s) => Some(s@),
        None => None,
    }
}

/// The mathematical value of a resolution result.
pub open spec fn res_view(r: Result<String, ExtractError>) -> Result<Seq<char>, ExtractError> {
    match r {
        Ok(s) => Ok(s@),
        Err(e) => Err(e),
    }
}

/// Which toolchain root resolution hands back: a toolchain home together
/// with a toolchain name gives `home/toolchains/name`; otherwise an
/// explicitly given root wins; with neither, resolution fails.
pub open spec fn spec_sysroot(
    home: Option<Seq<char>>,
    toolchain: Option<Seq<char>>,
    fallback: Option<Seq<char>>,
) -> Result<Seq<char>, ExtractError> {
    match (home, toolchain) {
        (Some(h), Some(t)) => Ok(h + "/toolchains/"@ + t),
        _ => match fallback {
            Some(s) => Ok(s),
            None => Err(ExtractError::ToolchainNotFound),
        },
    }
}

/// Resolve the host toolchain root from environment-provided values.  The
/// error comes exactly when no value resolves a root — the first of the two
/// fatal conditions — and then no partial result exists to hand on.
pub fn resolve_sysroot(
    home: Option<String>,
    toolchain: Option<String>,
    fallback: Option<String>,
) -> (r: Result<String, ExtractError>)
    ensures
        res_view(r) == spec_sysroot(opt_view(home), opt_view(toolchain), opt_view(fallback)),
{
    match (home, toolchain) {
        (Some(h), Some(t)) => {
            let mut root = h;
            root.append("/toolchains/");
            root.append(t.as_str());
            Ok(root)
        },
        _ => match fallback {
            Some(s) => Ok(s),
            None => Err(ExtractError::ToolchainNotFound),
        },
    }
}

/// The command line handed to the host compiler: the compiler's own name,
/// the resolved toolchain root, and exactly one input file.
pub open spec fn spec_compiler_args(sysroot: Seq<char>, filename: Seq<char>) -> Seq<Seq<char>> {
    seq!["rustc"@, "--sysroot"@, sysroot, filename]
}

/// Assemble the host compiler's command line.
pub fn compiler_args(sysroot: String, filename: String) -> (args: Vec<String>)
    ensures
        args@.map_values(|s: String| s@) == spec_compiler_args(sysroot@, filename@),
{
    let ghost sv = sysroot@;
    let ghost fv = filename@;
    let mut args: Vec<String> = Vec::new();
    args.push(String::from_str("rustc"));
    args.push(String::from_str("--sysroot"));
    args.push(sysroot);
    args.push(filename);
    proof {
        assert(args@.map_values(|s: String| s@) =~~= spec_compiler_args(sv, fv));
    }
    args
}

} // verus!
