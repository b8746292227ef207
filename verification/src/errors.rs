//! The error taxonomy of the orchestrator.
//!
//! Every error aborts the current top-level operation immediately; the
//! caller reports it once on the error stream and decides the process
//! exit status. There are no retries anywhere.

use vstd::prelude::*;

verus! {

/// Everything that can go wrong during an operation. An unparsable
/// invocation is `NoCommand` and triggers usage output rather than an
/// error report.
#[derive(Clone, Copy, PartialEq, Eq, Structural, Debug)]
pub enum BuildError {
    /// The argument vector names no recognized operation.
    NoCommand,
    /// The sub-project container directory is missing or unreadable.
    CannotEnumerate,
    /// The toolchain subprocess could not be launched.
    ToolchainUnavailable,
    /// The manifest query's output is malformed or lacks the declared
    /// targets.
    ManifestUnparsable,
    /// The toolchain ran and reported a build failure.
    ToolchainBuildFailed,
    /// The toolchain ran and reported a test failure.
    ToolchainTestFailed,
    /// The toolchain ran and reported a clean failure.
    ToolchainCleanFailed,
    /// A destination directory in the output tree could not be created.
    CannotCreateOutputDir,
    /// The produced artifact could not be copied into the output tree.
    CannotCopyArtifact,
    /// The unified output tree could not be removed.
    CannotDeleteOutputDir,
}

/// The short human-readable message reported for an error.
pub open spec fn spec_error_message(e: BuildError) -> Seq<char> {
    match e {
        BuildError::NoCommand => "no command given"@,
        BuildError::CannotEnumerate => "cannot read 'crates' directory"@,
        BuildError::ToolchainUnavailable => "cannot start cargo"@,
        BuildError::ManifestUnparsable => "cannot parse crate manifest"@,
        BuildError::ToolchainBuildFailed => "cargo rustc failed"@,
        BuildError::ToolchainTestFailed => "cargo test failed"@,
        BuildError::ToolchainCleanFailed => "cargo clean failed"@,
        BuildError::CannotCreateOutputDir => "cannot create dest directories in priv/"@,
        BuildError::CannotCopyArtifact => "cannot copy artifact"@,
        BuildError::CannotDeleteOutputDir => "cannot delete output dir"@,
    }
}

impl BuildError {
    /// The short human-readable message for this error.
    pub fn message(&self) -> (r: String)
        ensures
            r@ == spec_error_message(*self),
    {
        match self {
            BuildError::NoCommand => String::from_str("no command given"),
            BuildError::CannotEnumerate => String::from_str("cannot read 'crates' directory"),
            BuildError::ToolchainUnavailable => String::from_str("cannot start cargo"),
            BuildError::ManifestUnparsable => String::from_str("cannot parse crate manifest"),
            BuildError::ToolchainBuildFailed => String::from_str("cargo rustc failed"),
            BuildError::ToolchainTestFailed => String::from_str("cargo test failed"),
            BuildError::ToolchainCleanFailed => String::from_str("cargo clean failed"),
            BuildError::CannotCreateOutputDir => String::from_str(
                "cannot create dest directories in priv/",
            ),
            BuildError::CannotCopyArtifact => String::from_str("cannot copy artifact"),
            BuildError::CannotDeleteOutputDir => String::from_str("cannot delete output dir"),
        }
    }
}

} // verus!
