//! Validation of the build invocation's flags: the conflicting combinations
//! that are rejected before any filesystem mutation.

use vstd::prelude::*;

verus! {

/// A fatal conflict among the build flags.
#[derive(PartialEq, Eq, Structural, Clone, Copy, Debug)]
pub enum BuildFlagsError {
    /// Cache linking and cache copying are mutually exclusive.
    LinkAndCopyCache,
    /// Building in the current directory excludes fresh, cache and
    /// explicit-directory options.
    CurrentWithBuildOptions,
    /// Silencing output and inheriting stdio are mutually exclusive.
    SilentWithNoPipe,
}

/// Checks the build flags for conflicts, in the order the build entry point
/// reports them. Exactly the listed combinations are rejected.
pub fn validate_build_flags(
    current: bool,
    fresh: bool,
    link_cache: bool,
    copy_cache: bool,
    has_build_at: bool,
    silent: bool,
    no_pipe: bool,
) -> (r: Result<(), BuildFlagsError>)
    ensures
        (link_cache && copy_cache) ==> r == Result::<(), BuildFlagsError>::Err(
            BuildFlagsError::LinkAndCopyCache,
        ),
        (!(link_cache && copy_cache) && (fresh || link_cache || copy_cache || has_build_at)
            && current) ==> r == Result::<(), BuildFlagsError>::Err(
            BuildFlagsError::CurrentWithBuildOptions,
        ),
        (!(link_cache && copy_cache) && !((fresh || link_cache || copy_cache || has_build_at)
            && current) && silent && no_pipe) ==> r == Result::<(), BuildFlagsError>::Err(
            BuildFlagsError::SilentWithNoPipe,
        ),
        (!(link_cache && copy_cache) && !((fresh || link_cache || copy_cache || has_build_at)
            && current) && !(silent && no_pipe)) ==> r is Ok,
{
    if link_cache && copy_cache {
        return Err(BuildFlagsError::LinkAndCopyCache);
    }
    if (fresh || link_cache || copy_cache || has_build_at) && current {
        return Err(BuildFlagsError::CurrentWithBuildOptions);
    }
    if silent && no_pipe {
        return Err(BuildFlagsError::SilentWithNoPipe);
    }
    Ok(())
}

} // verus!
