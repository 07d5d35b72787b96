//! Shell commands: the stored command text, optional placeholders with their
//! substitution sets, and the policy flags governing failure handling and
//! output display. Substitution turns one stored command into the ordered
//! list of concrete invocations a run performs.

use vstd::prelude::*;
use vstd::string::*;

use crate::strutil::{replace_all, spec_replace, str_eq};
use crate::variables::{var_value_view, Variable};

verus! {

/// A command executed through the configured shell.
#[derive(Clone, Debug)]
pub struct CustomCommand {
    /// The command text handed to the shell.
    pub bash_c: String,
    /// Placeholder names that substitution replaces in `bash_c`.
    pub placeholders: Option<Vec<String>>,
    /// Substitution sets: the command runs once per inner list, with every
    /// `(placeholder, variable)` pair of that list applied to `bash_c`.
    pub replacements: Option<Vec<Vec<(String, Variable)>>>,
    /// Keep going (and report success) even when an invocation fails.
    pub ignore_fails: bool,
    /// Show captured output even when the invocation succeeded.
    pub show_success_output: bool,
    /// Show the literal command text in output headers; secrets force this
    /// off at substitution time.
    pub show_bash_c: bool,
    /// `Some(true)` skips the command entirely outside fresh builds.
    pub only_when_fresh: Option<bool>,
}

/// `base` with one substitution set applied: each pair's placeholder
/// replaced, left to right, by the pair's variable value.
pub open spec fn spec_apply_set(base: Seq<char>, set: Seq<(String, Variable)>) -> Seq<char>
    decreases set.len(),
{
    if set.len() == 0 {
        base
    } else {
        spec_apply_set(spec_replace(base, set[0].0@, var_value_view(set[0].1.value)), set.skip(1))
    }
}

/// Applies one substitution set to `base`.
pub fn apply_replacement_set(base: &str, set: &Vec<(String, Variable)>) -> (r: String)
    ensures
        r@ == spec_apply_set(base@, set@),
{
    let mut cur = base.to_owned();
    let n = set.len();
    let mut i: usize = 0;
    proof {
        assert(set@.skip(0) =~= set@);
    }
    while i < n
        invariant
            i <= n,
            n == set@.len(),
            spec_apply_set(base@, set@) == spec_apply_set(cur@, set@.skip(i as int)),
        decreases n - i,
    {
        let next = replace_all(cur.as_str(), set[i].0.as_str(), set[i].1.get_value());
        proof {
            assert(set@.skip(i as int)[0] == set@[i as int]);
            assert(set@.skip(i as int).skip(1) =~= set@.skip(i + 1));
        }
        cur = next;
        i = i + 1;
    }
    cur
}

/// The ordered command texts one execution of `cmd` spawns: one per
/// substitution set when placeholders and replacements are both present,
/// else the stored text once.
pub open spec fn spec_invocations(cmd: CustomCommand) -> Seq<Seq<char>> {
    if cmd.placeholders is Some && cmd.replacements is Some {
        cmd.replacements->Some_0@.map_values(
            |set: Vec<(String, Variable)>| spec_apply_set(cmd.bash_c@, set@),
        )
    } else {
        seq![cmd.bash_c@]
    }
}

impl CustomCommand {
    /// The concrete command texts this command's execution spawns, in order.
    pub fn invocations(&self) -> (r: Vec<String>)
        ensures
            r.deep_view() == spec_invocations(*self),
    {
        if self.placeholders.is_some() {
            if let Some(rs) = &self.replacements {
                let mut r: Vec<String> = Vec::new();
                let n = rs.len();
                let mut i: usize = 0;
                while i < n
                    invariant
                        i <= n,
                        n == rs@.len(),
                        r.deep_view() =~= rs@.take(i as int).map_values(
                            |set: Vec<(String, Variable)>| spec_apply_set(self.bash_c@, set@),
                        ),
                    decreases n - i,
                {
                    let ghost before = r.deep_view();
                    r.push(apply_replacement_set(self.bash_c.as_str(), &rs[i]));
                    proof {
                        assert(r.deep_view() =~= before.push(
                            spec_apply_set(self.bash_c@, rs@[i as int]@),
                        ));
                        assert(rs@.take(i + 1) =~= rs@.take(i as int).push(rs@[i as int]));
                    }
                    i = i + 1;
                }
                proof {
                    assert(rs@.take(n as int) =~= rs@);
                }
                return r;
            }
        }
        let mut r: Vec<String> = Vec::new();
        r.push(self.bash_c.clone());
        proof {
            assert(r.deep_view() =~= seq![self.bash_c@]);
        }
        r
    }

    /// A command entered without project-specific policy: failures ignored,
    /// output always shown, command text hidden, never restricted to fresh
    /// builds. An empty placeholder list counts as no placeholders.
    pub fn new_from_prompt_unspecified(bash_c: String, placeholders: Vec<String>) -> (r: Self)
        ensures
            r.bash_c@ == bash_c@,
            placeholders@.len() == 0 ==> r.placeholders is None,
            placeholders@.len() > 0 ==> r.placeholders == Some(placeholders),
            r.replacements is None,
            r.ignore_fails == true,
            r.show_success_output == true,
            r.show_bash_c == false,
            r.only_when_fresh == Some(false),
    {
        let placeholders = if placeholders.len() == 0 {
            None
        } else {
            Some(placeholders)
        };
        CustomCommand {
            bash_c,
            placeholders,
            replacements: None,
            ignore_fails: true,
            show_success_output: true,
            show_bash_c: false,
            only_when_fresh: Some(false),
        }
    }

    /// Binds this command to concrete substitution sets for a project. A
    /// secret variable anywhere among them forces the command text to stay
    /// hidden at build time; the override is one-way.
    pub fn with_replacements(&self, replacements: Vec<Vec<(String, Variable)>>) -> (r: Self)
        ensures
            r.bash_c == self.bash_c,
            spec_opt_string_vec_eq(r.placeholders, self.placeholders),
            r.replacements == Some(replacements),
            r.ignore_fails == self.ignore_fails,
            r.show_success_output == self.show_success_output,
            r.show_bash_c == (self.show_bash_c && !spec_any_secret(replacements@)),
            r.only_when_fresh == self.only_when_fresh,
    {
        broadcast use vstd::std_specs::vec::vec_clone_deep_view_proof;

        let any_secret = has_secret(&replacements);
        let placeholders = match &self.placeholders {
            None => None,
            Some(v) => Some(v.clone()),
        };
        CustomCommand {
            bash_c: self.bash_c.clone(),
            placeholders,
            replacements: Some(replacements),
            ignore_fails: self.ignore_fails,
            show_success_output: self.show_success_output,
            show_bash_c: self.show_bash_c && !any_secret,
            only_when_fresh: self.only_when_fresh,
        }
    }

    /// Structural equality with another command.
    pub fn eq(&self, other: &Self) -> (r: bool)
        ensures
            r == spec_command_eq(*self, *other),
    {
        if !str_eq(self.bash_c.as_str(), other.bash_c.as_str()) {
            return false;
        }
        if self.ignore_fails != other.ignore_fails || self.show_success_output
            != other.show_success_output || self.show_bash_c != other.show_bash_c {
            return false;
        }
        let fresh_eq = match (&self.only_when_fresh, &other.only_when_fresh) {
            (None, None) => true,
            (Some(a), Some(b)) => *a == *b,
            _ => false,
        };
        if !fresh_eq {
            return false;
        }
        let ph_eq = match (&self.placeholders, &other.placeholders) {
            (None, None) => true,
            (Some(a), Some(b)) => string_vecs_eq(a, b),
            _ => false,
        };
        if !ph_eq {
            return false;
        }
        match (&self.replacements, &other.replacements) {
            (None, None) => true,
            (Some(a), Some(b)) => replacement_sets_eq(a, b),
            _ => false,
        }
    }
}

/// Law: substitution fan-out. A command with placeholders and replacement
/// sets is executed exactly once per replacement set, in the order the sets
/// are stored, each time with that set's substitutions applied to the stored
/// command text.
pub proof fn lemma_invocation_fanout(cmd: CustomCommand)
    requires
        cmd.placeholders is Some,
        cmd.replacements is Some,
    ensures
        spec_invocations(cmd).len() == cmd.replacements->Some_0@.len(),
        forall|i: int|
            0 <= i < cmd.replacements->Some_0@.len() ==> spec_invocations(cmd)[i]
                == spec_apply_set(cmd.bash_c@, cmd.replacements->Some_0@[i]@),
{
}

/// Whether any variable of any substitution set is secret.
pub open spec fn spec_any_secret(rs: Seq<Vec<(String, Variable)>>) -> bool {
    exists|i: int, j: int|
        0 <= i < rs.len() && 0 <= j < rs[i]@.len() && rs[i]@[j].1.is_secret
}

fn set_has_secret(set: &Vec<(String, Variable)>) -> (r: bool)
    ensures
        r == exists|j: int| 0 <= j < set@.len() && set@[j].1.is_secret,
{
    let m = set.len();
    let mut j: usize = 0;
    while j < m
        invariant
            j <= m,
            m == set@.len(),
            forall|b: int| 0 <= b < j ==> !set@[b].1.is_secret,
        decreases m - j,
    {
        if set[j].1.is_secret {
            return true;
        }
        j = j + 1;
    }
    false
}

fn has_secret(rs: &Vec<Vec<(String, Variable)>>) -> (r: bool)
    ensures
        r == spec_any_secret(rs@),
{
    let n = rs.len();
    let mut i: usize = 0;
    while i < n
        invariant
            i <= n,
            n == rs@.len(),
            forall|a: int, b: int|
                0 <= a < i && 0 <= b < rs@[a]@.len() ==> !rs@[a]@[b].1.is_secret,
        decreases n - i,
    {
        if set_has_secret(&rs[i]) {
            return true;
        }
        i = i + 1;
    }
    false
}

/// Structural equality of commands: same text, flags, placeholders and
/// replacement bindings.
pub open spec fn spec_command_eq(a: CustomCommand, b: CustomCommand) -> bool {
    a.bash_c@ == b.bash_c@ && a.ignore_fails == b.ignore_fails && a.show_success_output
        == b.show_success_output && a.show_bash_c == b.show_bash_c && a.only_when_fresh
        == b.only_when_fresh && spec_opt_string_vec_eq(a.placeholders, b.placeholders)
        && spec_opt_replacements_eq(a.replacements, b.replacements)
}

pub open spec fn spec_opt_string_vec_eq(a: Option<Vec<String>>, b: Option<Vec<String>>) -> bool {
    match (a, b) {
        (None, None) => true,
        (Some(x), Some(y)) => x.deep_view() == y.deep_view(),
        _ => false,
    }
}

pub open spec fn spec_pair_eq(a: (String, Variable), b: (String, Variable)) -> bool {
    a.0@ == b.0@ && a.1.title@ == b.1.title@ && a.1.is_secret == b.1.is_secret && var_value_view(
        a.1.value,
    ) == var_value_view(b.1.value)
}

pub open spec fn spec_set_eq(a: Vec<(String, Variable)>, b: Vec<(String, Variable)>) -> bool {
    a@.len() == b@.len() && forall|i: int| 0 <= i < a@.len() ==> spec_pair_eq(a@[i], b@[i])
}

pub open spec fn spec_replacements_eq(
    a: Vec<Vec<(String, Variable)>>,
    b: Vec<Vec<(String, Variable)>>,
) -> bool {
    a@.len() == b@.len() && forall|i: int| 0 <= i < a@.len() ==> spec_set_eq(a@[i], b@[i])
}

pub open spec fn spec_opt_replacements_eq(
    a: Option<Vec<Vec<(String, Variable)>>>,
    b: Option<Vec<Vec<(String, Variable)>>>,
) -> bool {
    match (a, b) {
        (None, None) => true,
        (Some(x), Some(y)) => spec_replacements_eq(x, y),
        _ => false,
    }
}

fn string_vecs_eq(a: &Vec<String>, b: &Vec<String>) -> (r: bool)
    ensures
        r == (a.deep_view() == b.deep_view()),
{
    let n = a.len();
    if n != b.len() {
        assert(a.deep_view().len() != b.deep_view().len());
        return false;
    }
    let mut i: usize = 0;
    while i < n
        invariant
            i <= n,
            n == a@.len(),
            n == b@.len(),
            forall|k: int| 0 <= k < i ==> a@[k]@ == b@[k]@,
        decreases n - i,
    {
        if !str_eq(a[i].as_str(), b[i].as_str()) {
            assert(a.deep_view()[i as int] != b.deep_view()[i as int]);
            return false;
        }
        i = i + 1;
    }
    proof {
        assert(a.deep_view() =~= b.deep_view());
    }
    true
}

fn pairs_eq(a: &(String, Variable), b: &(String, Variable)) -> (r: bool)
    ensures
        r == spec_pair_eq(*a, *b),
{
    str_eq(a.0.as_str(), b.0.as_str()) && str_eq(a.1.title.as_str(), b.1.title.as_str())
        && a.1.is_secret == b.1.is_secret && str_eq(a.1.get_value(), b.1.get_value())
}

fn sets_eq(a: &Vec<(String, Variable)>, b: &Vec<(String, Variable)>) -> (r: bool)
    ensures
        r == spec_set_eq(*a, *b),
{
    let n = a.len();
    if n != b.len() {
        return false;
    }
    let mut i: usize = 0;
    while i < n
        invariant
            i <= n,
            n == a@.len(),
            n == b@.len(),
            forall|k: int| 0 <= k < i ==> spec_pair_eq(a@[k], b@[k]),
        decreases n - i,
    {
        if !pairs_eq(&a[i], &b[i]) {
            return false;
        }
        i = i + 1;
    }
    true
}

fn replacement_sets_eq(a: &Vec<Vec<(String, Variable)>>, b: &Vec<Vec<(String, Variable)>>) -> (r:
    bool)
    ensures
        r == spec_replacements_eq(*a, *b),
{
    let n = a.len();
    if n != b.len() {
        return false;
    }
    let mut i: usize = 0;
    while i < n
        invariant
            i <= n,
            n == a@.len(),
            n == b@.len(),
            forall|k: int| 0 <= k < i ==> spec_set_eq(a@[k], b@[k]),
        decreases n - i,
    {
        if !sets_eq(&a[i], &b[i]) {
            return false;
        }
        i = i + 1;
    }
    true
}

} // verus!
