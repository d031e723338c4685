//! Source acquisition: the fixed, versioned archive the sources come from,
//! the directory it unpacks to, and the idempotence and validation rules
//! around fetching it.  The network and archive work itself is done by the
//! embedding program.

use vstd::prelude::*;

use crate::error::Error;

verus! {

/// The pinned version of the vendored library's sources.
pub fn source_version() -> (r: &'static str)
    ensures
        r@ == "0.3.30"@,
{
    "0.3.30"
}

/// What `openblas_source_url` returns.
pub open spec fn source_url_spec() -> Seq<char> {
    "https://github.com/OpenMathLib/OpenBLAS/releases/download/v"@ + "0.3.30"@ + "/OpenBLAS-"@
        + "0.3.30"@ + ".tar.gz"@
}

/// The deterministic URL of the versioned source archive, fetched over a
/// secured transport.
pub fn openblas_source_url() -> (r: String)
    ensures
        r@ == source_url_spec(),
{
    String::from_str("https://github.com/OpenMathLib/OpenBLAS/releases/download/v").concat(
        source_version(),
    ).concat("/OpenBLAS-").concat(source_version()).concat(".tar.gz")
}

/// What `source_directory_name` returns.
pub open spec fn source_directory_name_spec() -> Seq<char> {
    "OpenBLAS-"@ + "0.3.30"@
}

/// Name of the top-level directory the archive unpacks to, under the
/// destination directory.
pub fn source_directory_name() -> (r: String)
    ensures
        r@ == source_directory_name_spec(),
{
    String::from_str("OpenBLAS-").concat(source_version())
}

/// What acquisition does next.
#[derive(Debug, Clone, Copy, PartialEq, Eq, Structural)]
pub enum AcquisitionAction {
    /// The versioned directory is already there: reuse it, no network.
    UseExisting,
    /// Fetch the archive, decompress it, and unpack it in place.
    FetchAndUnpack,
}

/// Acquisition is idempotent: an already-unpacked source tree is reused
/// without touching the network.
pub fn acquisition_action(destination_exists: bool) -> (r: AcquisitionAction)
    ensures
        r == AcquisitionAction::UseExisting <==> destination_exists,
{
    if destination_exists {
        AcquisitionAction::UseExisting
    } else {
        AcquisitionAction::FetchAndUnpack
    }
}

/// After unpacking, the expected top-level directory must exist; anything
/// else is an archive-layout mismatch and fails loudly rather than going on
/// with a wrong path.
pub fn confirm_unpacked(destination_exists: bool) -> (r: Result<(), Error>)
    ensures
        r is Ok <==> destination_exists,
        r matches Err(e) ==> e matches Error::FetchError { message } && message@
            == "archive did not unpack to the expected directory"@,
{
    if destination_exists {
        Ok(())
    } else {
        Err(
            Error::FetchError {
                message: String::from_str("archive did not unpack to the expected directory"),
            },
        )
    }
}

} // verus!
