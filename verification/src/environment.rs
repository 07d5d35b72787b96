//! The per-run build environment: where the build runs, where artifacts go,
//! whether this run got a fresh build directory, and the I/O policy.

use vstd::prelude::*;

verus! {

/// The context every action of one pipeline run executes in.
#[derive(Clone, Debug)]
pub struct BuildEnvironment {
    /// Directory in which every command runs.
    pub build_dir: String,
    /// Root under which build directories and run logs live.
    pub cache_dir: String,
    /// Directory build artifacts are placed into.
    pub artifacts_dir: String,
    /// True iff the build directory was freshly created for this run.
    pub new_build: bool,
    /// Suppress console status output.
    pub silent_build: bool,
    /// Hand subprocesses the parent's stdio instead of capturing it.
    pub no_pipe: bool,
}

impl BuildEnvironment {
    /// The same environment with stdio inheritance forced on, as observe
    /// actions demand.
    pub fn with_no_pipe(&self) -> (r: Self)
        ensures
            r.build_dir == self.build_dir,
            r.cache_dir == self.cache_dir,
            r.artifacts_dir == self.artifacts_dir,
            r.new_build == self.new_build,
            r.silent_build == self.silent_build,
            r.no_pipe == true,
    {
        BuildEnvironment {
            build_dir: self.build_dir.clone(),
            cache_dir: self.cache_dir.clone(),
            artifacts_dir: self.artifacts_dir.clone(),
            new_build: self.new_build,
            silent_build: self.silent_build,
            no_pipe: true,
        }
    }

    /// An exact copy of this environment.
    pub fn clone_exact(&self) -> (r: Self)
        ensures
            r == *self,
    {
        BuildEnvironment {
            build_dir: self.build_dir.clone(),
            cache_dir: self.cache_dir.clone(),
            artifacts_dir: self.artifacts_dir.clone(),
            new_build: self.new_build,
            silent_build: self.silent_build,
            no_pipe: self.no_pipe,
        }
    }
}

} // verus!
