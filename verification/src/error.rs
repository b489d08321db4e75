//! The ways in which an assembly run fails.

use vstd::prelude::*;

verus! {

/// Why an assembly run was abandoned. No failure is recovered from: the first
/// one ends the run.
#[derive(Debug, Clone, Copy, PartialEq, Eq, Structural)]
pub enum BundleError {
    /// The build toolchain exited with a status other than success.
    ToolchainFailure,
    /// The location of the vendored runtime framework was not supplied.
    ConfigurationMissing,
    /// Creating, copying, removing or reading a file or directory failed.
    FilesystemFailure,
    /// A manifest could not be encoded or written.
    ManifestSerializationFailure,
}

/// The process exit status that stands for `outcome`.
pub open spec fn exit_code_spec(outcome: Result<(), BundleError>) -> int {
    if outcome is Ok {
        0
    } else {
        1
    }
}

/// The process exit status for the outcome of a run: 0 for success, and 1 for
/// every failure.
pub fn exit_code(outcome: &Result<(), BundleError>) -> (code: i32)
    ensures
        code == exit_code_spec(*outcome),
        (code == 0) <==> (*outcome is Ok),
{
    match outcome {
        Ok(_) => 0,
        Err(_) => 1,
    }
}

impl BundleError {
    /// The diagnostic that is printed for this failure.
    pub open spec fn message_spec(self) -> Seq<char> {
        match self {
            BundleError::ToolchainFailure => "the build toolchain exited with a failure status"@,
            BundleError::ConfigurationMissing => "CEF_PATH needs to be set"@,
            BundleError::FilesystemFailure => "a file or directory operation failed"@,
            BundleError::ManifestSerializationFailure => "the manifest could not be written"@,
        }
    }

    /// The diagnostic that is printed for this failure.
    pub fn message(&self) -> (r: String)
        ensures
            r@ == self.message_spec(),
    {
        match self {
            BundleError::ToolchainFailure => crate::text::owned(
                "the build toolchain exited with a failure status",
            ),
            BundleError::ConfigurationMissing => crate::text::owned("CEF_PATH needs to be set"),
            BundleError::FilesystemFailure => crate::text::owned(
                "a file or directory operation failed",
            ),
            BundleError::ManifestSerializationFailure => crate::text::owned(
                "the manifest could not be written",
            ),
        }
    }
}

} // verus!
