//! The builds registry: which build directories exist per project, which of
//! them a pipeline may reuse, and how a build directory is chosen — reuse
//! the most recent compatible one, or mint a fresh one and record it.

use vstd::prelude::*;
use vstd::string::*;

use crate::pipelines::DescribedPipeline;
use crate::strutil::{spec_path_join, path_join, str_eq};

verus! {

/// One recorded build directory.
#[derive(Clone, Debug)]
pub struct BuildStats {
    /// Only pipelines carrying this exclusive tag may reuse the directory.
    pub exclusive_tag: Option<String>,
    /// The build directory's path.
    pub folder: String,
}

/// All recorded builds of one project, oldest first.
#[derive(Clone, Debug)]
pub struct ProjectBuilds {
    pub name: String,
    pub builds: Vec<BuildStats>,
}

/// The persisted registry of builds, per project.
#[derive(Debug)]
pub struct Builds {
    pub projects: Vec<ProjectBuilds>,
}

/// The text an optional tag carries.
pub open spec fn opt_str_view(o: Option<String>) -> Option<Seq<char>> {
    match o {
        Some(s) => Some(s@),
        None => None,
    }
}

/// Whether a recorded build may serve a pipeline with tag `tag`: both carry
/// no tag, or they carry the same tag text.
pub open spec fn spec_works_with(b: BuildStats, tag: Option<Seq<char>>) -> bool {
    match (b.exclusive_tag, tag) {
        (Some(a), Some(t)) => a@ == t,
        (None, None) => true,
        _ => false,
    }
}

impl BuildStats {
    /// Whether this build directory may serve `pipeline`.
    pub fn works_with(&self, pipeline: &DescribedPipeline) -> (r: bool)
        ensures
            r == spec_works_with(*self, opt_str_view(pipeline.exclusive_exec_tag)),
    {
        match (&self.exclusive_tag, &pipeline.exclusive_exec_tag) {
            (Some(a), Some(t)) => str_eq(a.as_str(), t.as_str()),
            (None, None) => true,
            _ => false,
        }
    }
}

/// The most recent compatible build, scanning from the newest entry.
pub open spec fn spec_last_compat(bs: Seq<BuildStats>, tag: Option<Seq<char>>) -> Option<int>
    decreases bs.len(),
{
    if bs.len() == 0 {
        None
    } else if spec_works_with(bs.last(), tag) {
        Some(bs.len() - 1)
    } else {
        spec_last_compat(bs.drop_last(), tag)
    }
}

proof fn lemma_last_compat(bs: Seq<BuildStats>, tag: Option<Seq<char>>)
    ensures
        match spec_last_compat(bs, tag) {
            Some(i) => 0 <= i < bs.len() && spec_works_with(bs[i], tag) && forall|j: int|
                i < j < bs.len() ==> !spec_works_with(bs[j], tag),
            None => forall|j: int| 0 <= j < bs.len() ==> !spec_works_with(bs[j], tag),
        },
    decreases bs.len(),
{
    if bs.len() > 0 && !spec_works_with(bs.last(), tag) {
        lemma_last_compat(bs.drop_last(), tag);
        assert forall|j: int| 0 <= j < bs.len() - 1 implies bs.drop_last()[j] == bs[j] by {}
    }
}

/// The directory a resolution picks: the most recent compatible entry when
/// reuse is allowed and one exists, else the freshly minted one.
pub open spec fn spec_chosen_folder(
    bs: Seq<BuildStats>,
    tag: Option<Seq<char>>,
    fresh: bool,
    minted: Seq<char>,
) -> Seq<char> {
    match spec_last_compat(bs, tag) {
        Some(i) => if !fresh {
            bs[i].folder@
        } else {
            minted
        },
        None => minted,
    }
}

/// The first registry entry for a project name.
pub open spec fn spec_project_index(ps: Seq<ProjectBuilds>, name: Seq<char>) -> Option<int>
    decreases ps.len(),
{
    if ps.len() == 0 {
        None
    } else if ps[0].name@ == name {
        Some(0int)
    } else {
        match spec_project_index(ps.skip(1), name) {
            Some(i) => Some(i + 1),
            None => None,
        }
    }
}

proof fn lemma_project_index(ps: Seq<ProjectBuilds>, name: Seq<char>)
    ensures
        match spec_project_index(ps, name) {
            Some(i) => 0 <= i < ps.len() && ps[i].name@ == name && forall|j: int|
                0 <= j < i ==> ps[j].name@ != name,
            None => forall|j: int| 0 <= j < ps.len() ==> ps[j].name@ != name,
        },
    decreases ps.len(),
{
    if ps.len() > 0 && ps[0].name@ != name {
        lemma_project_index(ps.skip(1), name);
        assert forall|j: int| 1 <= j < ps.len() implies ps.skip(1)[j - 1] == ps[j] by {}
    }
}

/// The recorded builds of `name`, or none when the project is unknown.
pub open spec fn spec_entry_builds(ps: Seq<ProjectBuilds>, name: Seq<char>) -> Seq<BuildStats> {
    match spec_project_index(ps, name) {
        Some(i) => ps[i].builds@,
        None => Seq::empty(),
    }
}

/// The registry entries with `name`'s entry taken out.
pub open spec fn spec_projects_without(
    ps: Seq<ProjectBuilds>,
    name: Seq<char>,
) -> Seq<ProjectBuilds> {
    match spec_project_index(ps, name) {
        Some(i) => ps.remove(i),
        None => ps,
    }
}

fn find_project(builds: &Builds, project_name: &str) -> (r: Option<usize>)
    ensures
        match r {
            Some(i) => spec_project_index(builds.projects@, project_name@) == Some(i as int),
            None => spec_project_index(builds.projects@, project_name@) is None,
        },
{
    let n = builds.projects.len();
    let mut i: usize = 0;
    while i < n
        invariant
            i <= n,
            n == builds.projects@.len(),
            forall|j: int| 0 <= j < i ==> builds.projects@[j].name@ != project_name@,
        decreases n - i,
    {
        if str_eq(builds.projects[i].name.as_str(), project_name) {
            proof {
                lemma_project_index(builds.projects@, project_name@);
                lemma_project_index_unique(builds.projects@, project_name@, i as int);
            }
            return Some(i);
        }
        i = i + 1;
    }
    proof {
        lemma_project_index(builds.projects@, project_name@);
    }
    None
}

proof fn lemma_project_index_unique(ps: Seq<ProjectBuilds>, name: Seq<char>, i: int)
    requires
        0 <= i < ps.len(),
        ps[i].name@ == name,
        forall|j: int| 0 <= j < i ==> ps[j].name@ != name,
    ensures
        spec_project_index(ps, name) == Some(i),
{
    lemma_project_index(ps, name);
    match spec_project_index(ps, name) {
        Some(k) => {
            if k < i {
                assert(ps[k].name@ != name);
            }
            if k > i {
                assert(ps[i].name@ != name);
            }
        },
        None => {
            assert(ps[i].name@ != name);
        },
    }
}

fn last_compatible(bs: &Vec<BuildStats>, pipeline: &DescribedPipeline) -> (r: Option<usize>)
    ensures
        match r {
            Some(i) => spec_last_compat(
                bs@,
                opt_str_view(pipeline.exclusive_exec_tag),
            ) == Some(i as int),
            None => spec_last_compat(bs@, opt_str_view(pipeline.exclusive_exec_tag)) is None,
        },
{
    let n = bs.len();
    let mut i: usize = n;
    while i > 0
        invariant
            i <= n,
            n == bs@.len(),
            forall|j: int|
                i <= j < n ==> !spec_works_with(bs@[j], opt_str_view(pipeline.exclusive_exec_tag)),
        decreases i,
    {
        i = i - 1;
        let w = bs[i].works_with(pipeline);
        if w {
            proof {
                lemma_last_compat_unique(
                    bs@,
                    opt_str_view(pipeline.exclusive_exec_tag),
                    i as int,
                );
            }
            return Some(i);
        }
    }
    proof {
        let tag = opt_str_view(pipeline.exclusive_exec_tag);
        lemma_last_compat(bs@, tag);
        if spec_last_compat(bs@, tag) is Some {
            let k = spec_last_compat(bs@, tag)->Some_0;
            assert(!spec_works_with(bs@[k], tag));
        }
    }
    None
}

proof fn lemma_last_compat_unique(bs: Seq<BuildStats>, tag: Option<Seq<char>>, i: int)
    requires
        0 <= i < bs.len(),
        spec_works_with(bs[i], tag),
        forall|j: int| i < j < bs.len() ==> !spec_works_with(bs[j], tag),
    ensures
        spec_last_compat(bs, tag) == Some(i),
{
    lemma_last_compat(bs, tag);
    match spec_last_compat(bs, tag) {
        Some(k) => {
            if k < i {
                assert(!spec_works_with(bs[i], tag));
            }
            if k > i {
                assert(!spec_works_with(bs[k], tag));
            }
        },
        None => {
            assert(!spec_works_with(bs[i], tag));
        },
    }
}

fn clone_opt_string(o: &Option<String>) -> (r: Option<String>)
    ensures
        opt_str_view(r) == opt_str_view(*o),
{
    match o {
        None => None,
        Some(s) => Some(s.clone()),
    }
}

/// Chooses the build directory for one run of `pipeline` and records it.
/// The most recent compatible entry is reused unless `fresh` is requested;
/// otherwise the pre-minted `minted` directory is recorded under the
/// pipeline's exclusive tag. The project's entry moves to the end of the
/// registry, created first if the project is new.
pub fn choose_build_folder(
    builds: &mut Builds,
    project_name: &str,
    pipeline: &DescribedPipeline,
    fresh: bool,
    minted: String,
) -> (folder: String)
    ensures
        ({
            let tag = opt_str_view(pipeline.exclusive_exec_tag);
            let entry = spec_entry_builds(old(builds).projects@, project_name@);
            let remaining = spec_projects_without(old(builds).projects@, project_name@);
            let reused = spec_last_compat(entry, tag) is Some && !fresh;
            &&& folder@ == spec_chosen_folder(entry, tag, fresh, minted@)
            &&& final(builds).projects@.len() == remaining.len() + 1
            &&& (forall|j: int|
                0 <= j < remaining.len() ==> final(builds).projects@[j] == remaining[j])
            &&& final(builds).projects@.last().name@ == project_name@
            &&& (reused ==> final(builds).projects@.last().builds@ == entry)
            &&& (!reused ==> {
                let nb = final(builds).projects@.last().builds@;
                &&& nb.len() == entry.len() + 1
                &&& (forall|j: int| 0 <= j < entry.len() ==> nb[j] == entry[j])
                &&& opt_str_view(nb.last().exclusive_tag) == tag
                &&& nb.last().folder@ == minted@
            })
        }),
{
    proof {
        lemma_project_index(builds.projects@, project_name@);
    }
    let idx = find_project(builds, project_name);
    let mut entry = match idx {
        Some(i) => builds.projects.remove(i),
        None => ProjectBuilds { name: project_name.to_owned(), builds: Vec::new() },
    };
    proof {
        assert(entry.builds@ =~= spec_entry_builds(old(builds).projects@, project_name@));
    }
    let found = last_compatible(&entry.builds, pipeline);
    proof {
        lemma_last_compat(entry.builds@, opt_str_view(pipeline.exclusive_exec_tag));
    }
    let reuse = !fresh && found.is_some();
    let folder = if reuse {
        let i = match found {
            Some(i) => i,
            None => unreached(),
        };
        entry.builds[i].folder.clone()
    } else {
        let tag = clone_opt_string(&pipeline.exclusive_exec_tag);
        let ghost before = entry.builds@;
        entry.builds.push(BuildStats { exclusive_tag: tag, folder: minted.clone() });
        proof {
            assert(entry.builds@.drop_last() =~= before);
        }
        minted
    };
    builds.projects.push(entry);
    proof {
        let remaining = spec_projects_without(old(builds).projects@, project_name@);
        assert(builds.projects@.drop_last() =~= remaining);
    }
    folder
}

/// A directory is a fresh build when it did not yet exist on disk or a fresh
/// build was explicitly requested.
pub fn is_new_build(folder_existed: bool, fresh: bool) -> (r: bool)
    ensures
        r == (!folder_existed || fresh),
{
    !folder_existed || fresh
}

/// The path of a newly minted build directory: `deploy-build-<uuid>` under
/// the cache root's `deploy-cache` folder.
pub fn minted_build_folder(cache_root: &str, uuid: &str) -> (r: String)
    ensures
        r@ == spec_path_join(
            spec_path_join(cache_root@, "deploy-cache"@),
            "deploy-build-"@ + uuid@,
        ),
{
    let base = path_join(cache_root, "deploy-cache");
    let mut name = String::from_str("deploy-build-");
    name.append(uuid);
    path_join(base.as_str(), name.as_str())
}

/// The names excluded when the project tree is copied into a build
/// directory: the artifacts directory, the build directory's own name, and
/// the declared cache entries.
pub fn copy_ignore_list(build_folder_name: &str, cache_files: &Vec<String>) -> (r: Vec<String>)
    ensures
        r.deep_view() == seq!["artifacts"@, build_folder_name@] + cache_files.deep_view(),
{
    let mut r: Vec<String> = Vec::new();
    r.push(String::from_str("artifacts"));
    r.push(build_folder_name.to_owned());
    let n = cache_files.len();
    let mut i: usize = 0;
    proof {
        assert(r.deep_view() =~= seq!["artifacts"@, build_folder_name@]
            + cache_files.deep_view().take(0));
    }
    while i < n
        invariant
            i <= n,
            n == cache_files@.len(),
            r.deep_view() =~= seq!["artifacts"@, build_folder_name@]
                + cache_files.deep_view().take(i as int),
        decreases n - i,
    {
        let ghost before = r.deep_view();
        r.push(cache_files[i].clone());
        proof {
            let cv = cache_files.deep_view();
            assert(r.deep_view() =~= before.push(cv[i as int]));
            assert(cv.take(i + 1) =~= cv.take(i as int).push(cv[i as int]));
        }
        i = i + 1;
    }
    proof {
        assert(cache_files.deep_view().take(n as int) =~= cache_files.deep_view());
    }
    r
}

/// Empties the project's recorded builds and hands back the directories to
/// delete. An unknown project yields nothing and changes nothing.
pub fn take_project_build_folders(builds: &mut Builds, project_name: &str) -> (r: Vec<String>)
    ensures
        ({
            let ps = old(builds).projects@;
            match spec_project_index(ps, project_name@) {
                Some(i) => {
                    &&& r.deep_view() == ps[i].builds@.map_values(|b: BuildStats| b.folder@)
                    &&& final(builds).projects@.len() == ps.len()
                    &&& (forall|j: int|
                        0 <= j < ps.len() && j != i ==> final(builds).projects@[j] == ps[j])
                    &&& final(builds).projects@[i].name@ == project_name@
                    &&& final(builds).projects@[i].builds@.len() == 0
                },
                None => {
                    &&& r.deep_view() == Seq::<Seq<char>>::empty()
                    &&& final(builds).projects@ == ps
                },
            }
        }),
{
    let idx = find_project(builds, project_name);
    match idx {
        None => {
            let r: Vec<String> = Vec::new();
            proof {
                assert(r.deep_view() =~= Seq::<Seq<char>>::empty());
            }
            r
        },
        Some(i) => {
            proof {
                lemma_project_index(builds.projects@, project_name@);
            }
            let mut folders: Vec<String> = Vec::new();
            let n = builds.projects[i].builds.len();
            let mut k: usize = 0;
            while k < n
                invariant
                    k <= n,
                    i < builds.projects@.len(),
                    builds.projects@ == old(builds).projects@,
                    n == builds.projects@[i as int].builds@.len(),
                    folders.deep_view() =~= builds.projects@[i as int].builds@.take(
                        k as int,
                    ).map_values(|b: BuildStats| b.folder@),
                decreases n - k,
            {
                let ghost before = folders.deep_view();
                folders.push(builds.projects[i].builds[k].folder.clone());
                proof {
                    let bv = builds.projects@[i as int].builds@;
                    assert(folders.deep_view() =~= before.push(bv[k as int].folder@));
                    assert(bv.take(k + 1) =~= bv.take(k as int).push(bv[k as int]));
                    assert(bv.take(k + 1).map_values(|b: BuildStats| b.folder@) =~= bv.take(
                        k as int,
                    ).map_values(|b: BuildStats| b.folder@).push(bv[k as int].folder@));
                }
                k = k + 1;
            }
            proof {
                let bv = builds.projects@[i as int].builds@;
                assert(bv.take(n as int) =~= bv);
            }
            let name = builds.projects[i].name.clone();
            let fresh_entry = ProjectBuilds { name, builds: Vec::new() };
            builds.projects.set(i, fresh_entry);
            folders
        },
    }
}

/// Law: build-directory reuse. Once a resolution has recorded a directory
/// under some exclusive tag, the next resolution for the same tag without a
/// fresh request picks exactly that directory; with a fresh request it picks
/// exactly the newly minted one instead — distinct whenever the minted name
/// is new.
pub proof fn lemma_build_reuse(
    bs: Seq<BuildStats>,
    recorded: BuildStats,
    tag: Option<Seq<char>>,
    minted2: Seq<char>,
)
    requires
        opt_str_view(recorded.exclusive_tag) == tag,
    ensures
        spec_chosen_folder(bs.push(recorded), tag, false, minted2) == recorded.folder@,
        spec_chosen_folder(bs.push(recorded), tag, true, minted2) == minted2,
{
    assert(bs.push(recorded).last() == recorded);
    assert(spec_works_with(recorded, tag));
}

} // verus!
