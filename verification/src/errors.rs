//! The error taxonomy of the copy engine.

use vstd::prelude::*;

verus! {

/// Every way a copy run can fail. Each failure is fatal: the engine never
/// retries, and a run aborts at the first error it detects.
///
/// `DestinationProbeFailed` and `IoError` arise only from the filesystem and
/// are produced by the unverified caller that performs the I/O; the planning
/// and resolution functions of this crate return the other variants.
#[derive(Clone, Copy, Debug, PartialEq, Eq, Structural)]
pub enum CopyError {
    /// A listed source does not exist.
    SourceMissing,
    /// A source exists but is neither a regular file nor a directory.
    SourceUnsupportedKind,
    /// Checking the destination's existence or kind failed with an OS error.
    DestinationProbeFailed,
    /// More than one source was given and the destination is not an
    /// existing directory.
    MultiSourceRequiresDirectory,
    /// A source path has no extractable base name, but one is needed to
    /// compose a target inside a destination directory.
    NoFileName,
    /// Opening, reading or writing a file failed during the actual copy.
    IoError,
}

} // verus!
