//! Error taxonomy of the pipeline: one kind per stage that can fail.

use vstd::prelude::*;

verus! {

/// The container of the compiled binary is malformed or incomplete.
#[derive(Debug, PartialEq, Eq, Structural)]
pub enum FormatError {
    /// A required structure (container header, section table, debug-directory
    /// entry) is absent or inconsistent.
    Malformed,
    /// No section carries the well-known code-section name.
    MissingSection,
    /// The debug-directory entry or its embedded store path is absent, not
    /// null-terminated, or not validly encoded.
    MissingDebugInfo,
}

/// The debug-symbol store is unreadable or inconsistent.
#[derive(Debug, PartialEq, Eq, Structural)]
pub enum DebugInfoError {
    /// The store could not be opened or one of its streams is malformed.
    OpenFailed,
    /// A procedure record's module-relative offset has no absolute address.
    UnresolvedAddress,
}

/// The runtime anchor address could not be correlated with any record.
#[derive(Debug, PartialEq, Eq, Structural)]
pub enum ResolutionError {
    /// No record's name ends with the requested anchor name.
    AnchorNotFound,
}

} // verus!
