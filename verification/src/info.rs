//! Short name and version pairs that identify actions and pipelines, and
//! their `name@version` text form.

use vstd::prelude::*;
use vstd::string::*;

use crate::strutil::{spec_split, split_char};

verus! {

/// A short name and a version, identifying an action or a pipeline.
#[derive(Clone, Debug)]
pub struct Info {
    pub short_name: String,
    pub version: String,
}

pub type ActionInfo = Info;

pub type PipelineInfo = Info;

/// The `name@version` rendering of `v`.
pub open spec fn spec_info_str(v: Info) -> Seq<char> {
    v.short_name@ + seq!['@'] + v.version@
}

/// Renders `v` as `name@version`.
pub fn info2str_simple(v: &Info) -> (r: String)
    ensures
        r@ == spec_info_str(*v),
{
    let mut r = v.short_name.clone();
    r.append("@");
    proof {
        reveal_strlit("@");
        assert(r@ =~= v.short_name@ + seq!['@']);
    }
    r.append(v.version.as_str());
    r
}

/// Reads an `Info` back from its text form: the short name is the part
/// before the first `'@'`, the version the part after it (up to a second
/// `'@'`, if any). Fails when the text holds no `'@'` at all.
pub fn str2info(s: &str) -> (r: Option<Info>)
    ensures
        match r {
            Some(v) => spec_split(s@, '@').len() >= 2 && v.short_name@ == spec_split(s@, '@')[0]
                && v.version@ == spec_split(s@, '@')[1],
            None => spec_split(s@, '@').len() < 2,
        },
{
    let mut parts = split_char(s, '@');
    if parts.len() < 2 {
        return None;
    }
    let version = parts.remove(1);
    let short_name = parts.remove(0);
    Some(Info { short_name, version })
}

} // verus!
