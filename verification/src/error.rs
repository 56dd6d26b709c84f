//! The fatal conditions of an extraction run.
//!
//! Exactly two conditions abort a run before any program is produced; every
//! other difficulty degrades silently to a placeholder instead of becoming an
//! error.

use vstd::prelude::*;

verus! {

/// Why an extraction run aborted with no program.
#[derive(Clone, Copy, Debug, PartialEq, Eq, Structural)]
pub enum ExtractError {
    /// No usable toolchain root could be resolved from the environment.
    ToolchainNotFound,
    /// The host compiler reported a compilation error for the input file.
    CompilationFailed,
}

} // verus!
