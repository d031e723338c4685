//! Fixed names of the files the external build tool reads and writes in
//! the output directory, the platform-dependent artifact naming, and the
//! staging rules for copying the source tree.

use vstd::prelude::*;

verus! {

/// The platform a build runs on, detected once at startup by the embedding
/// program; only the shared-object naming differs.
#[derive(Debug, Clone, Copy, PartialEq, Eq, Structural)]
pub enum Platform {
    Linux,
    MacOs,
}

impl Platform {
    /// File name of the static archive the external tool produces.
    pub fn static_library_filename(&self) -> (r: &'static str)
        ensures
            r@ == "libopenblas.a"@,
    {
        "libopenblas.a"
    }

    /// File name of the shared object the external tool produces: `.so`
    /// everywhere but on Apple platforms.
    pub fn shared_library_filename(&self) -> (r: &'static str)
        ensures
            *self == Platform::Linux ==> r@ == "libopenblas.so"@,
            *self == Platform::MacOs ==> r@ == "libopenblas.dylib"@,
    {
        match self {
            Platform::Linux => "libopenblas.so",
            Platform::MacOs => "libopenblas.dylib",
        }
    }
}

/// File name of the build-config report the external tool writes.
pub fn report_filename() -> (r: &'static str)
    ensures
        r@ == "Makefile.conf"@,
{
    "Makefile.conf"
}

/// File the external tool's standard output is redirected into: the tool
/// prints tens of thousands of lines, which must not reach the caller.
pub fn stdout_log_filename() -> (r: &'static str)
    ensures
        r@ == "out.log"@,
{
    "out.log"
}

/// File the external tool's standard error is redirected into.
pub fn stderr_log_filename() -> (r: &'static str)
    ensures
        r@ == "err.log"@,
{
    "err.log"
}

/// The environment variable that must be removed before the external tool
/// runs: the host toolchain sets it to a target triple, but the external
/// tool reads it as a CPU target and silently misconfigures itself.
pub fn scrubbed_env_var() -> (r: &'static str)
    ensures
        r@ == "TARGET"@,
{
    "TARGET"
}

/// What staging does with one source-tree entry.
#[derive(Debug, Clone, Copy, PartialEq, Eq, Structural)]
pub enum StagingAction {
    /// The destination already exists: never overwrite, so that a partial
    /// earlier staging can be resumed.
    Skip,
    /// A directory that does not exist yet at the destination.
    CreateDirectory,
    /// A regular file that does not exist yet at the destination.
    CopyFile,
    /// Neither a directory nor a regular file: nothing to stage.
    Ignore,
}

/// Decides what staging does with one entry of the source tree, given what
/// the embedding program observed about it and its destination.
pub fn staging_action(destination_exists: bool, is_directory: bool, is_file: bool) -> (r:
    StagingAction)
    ensures
        destination_exists ==> r == StagingAction::Skip,
        !destination_exists && is_directory ==> r == StagingAction::CreateDirectory,
        !destination_exists && !is_directory && is_file ==> r == StagingAction::CopyFile,
        !destination_exists && !is_directory && !is_file ==> r == StagingAction::Ignore,
{
    if destination_exists {
        StagingAction::Skip
    } else if is_directory {
        StagingAction::CreateDirectory
    } else if is_file {
        StagingAction::CopyFile
    } else {
        StagingAction::Ignore
    }
}

} // verus!
