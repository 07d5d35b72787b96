//! Per-project configuration: the read-only snapshot one build invocation
//! works from.

use vstd::prelude::*;

use crate::langs::ProgrammingLanguage;
use crate::pipelines::DescribedPipeline;
use crate::targets::TargetDescription;
use crate::variables::Variable;

verus! {

/// A project's stored options. The execution core reads this as an immutable
/// snapshot; only the builds registry gains entries during a run.
#[derive(Debug)]
pub struct DeployerProjectOptions {
    pub project_name: String,
    pub langs: Vec<ProgrammingLanguage>,
    pub targets: Vec<TargetDescription>,
    pub deploy_toolkit: Option<String>,
    /// Titles of past builds, kept for bookkeeping.
    pub builds: Vec<String>,
    pub last_build: Option<String>,
    /// Cache file and folder names excluded from build-tree copies and
    /// linked or copied into fresh build directories.
    pub cache_files: Vec<String>,
    pub pipelines: Vec<DescribedPipeline>,
    /// Relative paths of the artifacts the project produces.
    pub artifacts: Vec<String>,
    pub variables: Vec<Variable>,
    /// `(from, to)` mappings placing build outputs under the artifacts
    /// directory.
    pub inplace_artifacts_into_project_root: Vec<(String, String)>,
}

} // verus!
