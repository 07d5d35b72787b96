//! Described pipelines: ordered action lists with registry metadata, and the
//! selection rules the build entry point applies to a project's pipelines.

use vstd::prelude::*;
use vstd::string::*;

use crate::actions::DescribedAction;
use crate::info::PipelineInfo;
use crate::strutil::str_eq;

verus! {

/// An ordered list of actions executed as one build/deploy run.
#[derive(Clone, Debug)]
pub struct DescribedPipeline {
    pub title: String,
    pub desc: String,
    pub info: PipelineInfo,
    pub tags: Vec<String>,
    pub actions: Vec<DescribedAction>,
    /// Run this pipeline when no selector is given; unset counts as false.
    pub default: Option<bool>,
    /// Build directories are shared only among pipelines with this tag.
    pub exclusive_exec_tag: Option<String>,
}

/// The first pipeline marked as the default, if any.
pub fn find_default_pipeline(pipelines: &Vec<DescribedPipeline>) -> (r: Option<usize>)
    ensures
        match r {
            Some(i) => i < pipelines@.len() && pipelines@[i as int].default == Some(true)
                && forall|j: int| 0 <= j < i ==> pipelines@[j].default != Some(true),
            None => forall|j: int|
                0 <= j < pipelines@.len() ==> pipelines@[j].default != Some(true),
        },
{
    let n = pipelines.len();
    let mut i: usize = 0;
    while i < n
        invariant
            i <= n,
            n == pipelines@.len(),
            forall|j: int| 0 <= j < i ==> pipelines@[j].default != Some(true),
        decreases n - i,
    {
        let is_default = match pipelines[i].default {
            Some(v) => v,
            None => false,
        };
        if is_default {
            return Some(i);
        }
        i = i + 1;
    }
    None
}

/// The first pipeline titled `title`, if any.
pub fn find_pipeline_by_title(pipelines: &Vec<DescribedPipeline>, title: &str) -> (r: Option<
    usize,
>)
    ensures
        match r {
            Some(i) => i < pipelines@.len() && pipelines@[i as int].title@ == title@ && forall|
                j: int,
            | 0 <= j < i ==> pipelines@[j].title@ != title@,
            None => forall|j: int| 0 <= j < pipelines@.len() ==> pipelines@[j].title@ != title@,
        },
{
    let n = pipelines.len();
    let mut i: usize = 0;
    while i < n
        invariant
            i <= n,
            n == pipelines@.len(),
            forall|j: int| 0 <= j < i ==> pipelines@[j].title@ != title@,
        decreases n - i,
    {
        if str_eq(pipelines[i].title.as_str(), title) {
            return Some(i);
        }
        i = i + 1;
    }
    None
}

} // verus!
