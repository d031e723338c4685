//! Error taxonomy of the build-orchestration core.
//!
//! Every failure the library can report is one of these variants; none of
//! the verified functions panic.  Paths and captured subprocess output are
//! carried as plain strings.

use vstd::prelude::*;

verus! {

/// All errors reported by the build-orchestration core.
#[derive(Debug, Clone, PartialEq, Eq)]
pub enum Error {
    /// The external build tool ran but exited with a non-zero status.
    /// `stderr` is the captured error log, surfaced so that a failed
    /// third-party build can be diagnosed without re-running it.
    NonZeroExitStatus { status: i32, stderr: String },
    /// The external build tool could not be started at all.
    SubprocessCannotStart { error: String },
    /// A Fortran compiler was required (LAPACK was requested) but the
    /// build-config report says none was available.
    FortranCompilerNotFound,
    /// A `-L` search path in a linker flag could not be canonicalized.
    CannotCanonicalizePath { path: String },
    /// The build-config report file does not exist in the output directory.
    MakeConfNotExist { out_dir: String },
    /// An expected binary artifact is missing.
    LibraryNotExist { path: String },
    /// A CPU-target token was not recognized.
    UnsupportedTarget { target: String },
    /// Cross-compilation was detected but a required tool could not be
    /// determined; `info` names the missing piece.
    MissingCrossCompileInfo { info: String },
    /// Fetching or unpacking the source archive failed.
    FetchError { message: String },
    /// Any other filesystem failure.
    IOError { message: String },
}

impl Error {
    /// A short, fixed description of the error kind.
    pub fn describe(&self) -> (r: &'static str)
        ensures
            r@ == self.describe_spec(),
    {
        match self {
            Error::NonZeroExitStatus { .. } => "subprocess returned with non-zero status",
            Error::SubprocessCannotStart { .. } => "subprocess cannot start",
            Error::FortranCompilerNotFound => "Fortran compiler not found; it is necessary to build LAPACK",
            Error::CannotCanonicalizePath { .. } => "cannot canonicalize path in linker flag",
            Error::MakeConfNotExist { .. } => "build-config report does not exist in the output directory",
            Error::LibraryNotExist { .. } => "library file does not exist",
            Error::UnsupportedTarget { .. } => "target is unsupported",
            Error::MissingCrossCompileInfo { .. } => "missing cross-compilation information",
            Error::FetchError { .. } => "cannot fetch or unpack the source archive",
            Error::IOError { .. } => "IO error",
        }
    }

    /// What `describe` returns for each variant.
    pub open spec fn describe_spec(&self) -> Seq<char> {
        match self {
            Error::NonZeroExitStatus { .. } => "subprocess returned with non-zero status"@,
            Error::SubprocessCannotStart { .. } => "subprocess cannot start"@,
            Error::FortranCompilerNotFound => "Fortran compiler not found; it is necessary to build LAPACK"@,
            Error::CannotCanonicalizePath { .. } => "cannot canonicalize path in linker flag"@,
            Error::MakeConfNotExist { .. } => "build-config report does not exist in the output directory"@,
            Error::LibraryNotExist { .. } => "library file does not exist"@,
            Error::UnsupportedTarget { .. } => "target is unsupported"@,
            Error::MissingCrossCompileInfo { .. } => "missing cross-compilation information"@,
            Error::FetchError { .. } => "cannot fetch or unpack the source archive"@,
            Error::IOError { .. } => "IO error"@,
        }
    }
}

} // verus!
