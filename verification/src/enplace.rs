//! Artifact enplacement: which declared build outputs are copied where, and
//! what happens when a declared output is missing — a fatal failure for the
//! final enplacement, a silent skip for the best-effort mid-pipeline one.

use vstd::prelude::*;
use vstd::string::*;

use crate::strutil::{path_join, spec_path_join};

verus! {

/// The decision for one `(from, to)` mapping.
pub enum EnplaceStep {
    /// The source exists: copy it, recursively, to the destination.
    CopyTo { src: String, dst: String },
    /// The source is missing and the pass is best-effort: do nothing.
    SkipMissing,
    /// The source is missing and the pass is mandatory: fail the operation.
    FailMissing,
}

/// Decides one artifact mapping: `from` is resolved under the build
/// directory; a present source is copied to `to` under the artifacts
/// directory; a missing one fails the operation exactly when
/// `panic_when_not_found` is set, and is skipped silently otherwise.
pub fn enplace_decision(
    build_dir: &str,
    artifacts_dir: &str,
    from: &str,
    to: &str,
    exists: bool,
    panic_when_not_found: bool,
) -> (r: EnplaceStep)
    ensures
        exists ==> (r matches EnplaceStep::CopyTo { src, dst } && src@ == spec_path_join(
            build_dir@,
            from@,
        ) && dst@ == spec_path_join(artifacts_dir@, to@)),
        !exists && panic_when_not_found ==> r is FailMissing,
        !exists && !panic_when_not_found ==> r is SkipMissing,
{
    if exists {
        EnplaceStep::CopyTo {
            src: path_join(build_dir, from),
            dst: path_join(artifacts_dir, to),
        }
    } else if panic_when_not_found {
        EnplaceStep::FailMissing
    } else {
        EnplaceStep::SkipMissing
    }
}

/// The source path an enplacement tests for existence: `from` under the
/// build directory.
pub fn enplace_source(build_dir: &str, from: &str) -> (r: String)
    ensures
        r@ == spec_path_join(build_dir@, from@),
{
    path_join(build_dir, from)
}

/// The names excluded from enplacement copies: the artifacts directory
/// itself and the declared cache entries.
pub fn enplace_ignore_list(cache_files: &Vec<String>) -> (r: Vec<String>)
    ensures
        r.deep_view() == seq!["artifacts"@] + cache_files.deep_view(),
{
    let mut r: Vec<String> = Vec::new();
    r.push(String::from_str("artifacts"));
    let n = cache_files.len();
    let mut i: usize = 0;
    proof {
        assert(r.deep_view() =~= seq!["artifacts"@] + cache_files.deep_view().take(0));
    }
    while i < n
        invariant
            i <= n,
            n == cache_files@.len(),
            r.deep_view() =~= seq!["artifacts"@] + cache_files.deep_view().take(i as int),
        decreases n - i,
    {
        let ghost before = r.deep_view();
        r.push(cache_files[i].clone());
        proof {
            let cv = cache_files.deep_view();
            assert(r.deep_view() =~= before.push(cv[i as int]));
            assert(cv.take(i + 1) =~= cv.take(i as int).push(cv[i as int]));
        }
        i = i + 1;
    }
    proof {
        assert(cache_files.deep_view().take(n as int) =~= cache_files.deep_view());
    }
    r
}

} // verus!
