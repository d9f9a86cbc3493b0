//! Image handling decisions: how an archive image's stream is classified
//! (compressed or plain, by filename convention), and the diagnostic for
//! each stage at which unpacking can fail. The unpacking itself is the
//! host driver's work.

use vstd::prelude::*;

use crate::text::{concat2, seq_ends_with, str_ends_with};

verus! {

/// Whether an archive name announces a gzip-compressed stream, by the
/// filename-suffix convention.
pub open spec fn gzip_named(name: Seq<char>) -> bool {
    seq_ends_with(name, ".tar.gz"@) || seq_ends_with(name, ".tgz"@)
}

/// Classifies an archive by its name's suffix; the stream's content is
/// never inspected.
pub fn archive_is_gzipped(name: &str) -> (b: bool)
    ensures
        b == gzip_named(name@),
{
    str_ends_with(name, ".tar.gz") || str_ends_with(name, ".tgz")
}

/// The stages at which unpacking an archive can fail.
pub enum UnpackStep {
    Open,
    CreateDir,
    Extract,
}

/// The diagnostic for a failed unpack, naming the failing stage; for the
/// extraction stage it also says whether a gzip decoder was in use.
pub fn unpack_failure(step: UnpackStep, gzipped: bool, detail: &str) -> (m: String)
    ensures
        step is Open ==> m@ == "Failed to open tarball: "@ + detail@,
        step is CreateDir ==> m@ == "Failed to create rootfs dir: "@ + detail@,
        step is Extract && gzipped ==> m@ == "Failed to unpack gzipped tarball: "@ + detail@,
        step is Extract && !gzipped ==> m@ == "Failed to unpack tarball: "@ + detail@,
{
    match step {
        UnpackStep::Open => concat2("Failed to open tarball: ", detail),
        UnpackStep::CreateDir => concat2("Failed to create rootfs dir: ", detail),
        UnpackStep::Extract => {
            if gzipped {
                concat2("Failed to unpack gzipped tarball: ", detail)
            } else {
                concat2("Failed to unpack tarball: ", detail)
            }
        },
    }
}

} // verus!
