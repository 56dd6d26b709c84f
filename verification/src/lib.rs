//! Extraction of a minimal, solver-friendly program representation from the
//! analyzed item tree of a host-language compiler.
//!
//! The host compiler reports every top-level declaration of a compiled unit
//! (`host`).  A single pass projects each recognized declaration into a small
//! target abstract syntax tree (`ast`): structured records with their fields,
//! with identifiers canonicalized through an explicit interner (`intern`).
//! Unsupported constructs degrade to a fixed placeholder instead of failing
//! the pass (`extract`).  Locating the host toolchain from environment values
//! is plain data logic and lives in `sysroot`; actually driving the host
//! compiler is left to the embedding program.

pub mod ast;
pub mod error;
pub mod extract;
pub mod host;
pub mod intern;
pub mod sysroot;
