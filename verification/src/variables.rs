//! Project variables: named values substituted for command placeholders.
//! A variable marked secret forces the command text to be hidden at build
//! time wherever the variable is substituted.

use vstd::prelude::*;
use vstd::string::*;

use crate::strutil::str_eq;

verus! {

/// The value a variable carries.
#[derive(Clone, Debug)]
pub enum VarValue {
    Plain(String),
}

/// A named project variable.
#[derive(Clone, Debug)]
pub struct Variable {
    pub title: String,
    pub is_secret: bool,
    pub value: VarValue,
}

/// The character content of a variable value.
pub open spec fn var_value_view(v: VarValue) -> Seq<char> {
    match v {
        VarValue::Plain(s) => s@,
    }
}

impl Variable {
    /// A plain, non-secret variable.
    pub fn new_plain(title: &str, value: &str) -> (r: Self)
        ensures
            r.title@ == title@,
            r.is_secret == false,
            var_value_view(r.value) == value@,
    {
        Variable { title: title.to_owned(), is_secret: false, value: VarValue::Plain(value.to_owned()) }
    }

    /// The substitutable content of this variable.
    pub fn get_value(&self) -> (r: &str)
        ensures
            r@ == var_value_view(self.value),
    {
        match &self.value {
            VarValue::Plain(val) => val.as_str(),
        }
    }
}

/// The first variable of `vars` titled `title`, if any.
pub open spec fn spec_find_var(vars: Seq<Variable>, title: Seq<char>) -> Option<Variable>
    decreases vars.len(),
{
    if vars.len() == 0 {
        None
    } else if vars[0].title@ == title {
        Some(vars[0])
    } else {
        spec_find_var(vars.skip(1), title)
    }
}

/// Finds the first variable titled `title`.
pub fn find_var<'a>(vars: &'a Vec<Variable>, title: &str) -> (r: Option<&'a Variable>)
    ensures
        match r {
            Some(v) => spec_find_var(vars@, title@) == Some(*v),
            None => spec_find_var(vars@, title@) is None,
        },
{
    let n = vars.len();
    let mut i: usize = 0;
    proof {
        assert(vars@.skip(0) =~= vars@);
    }
    while i < n
        invariant
            i <= n,
            n == vars@.len(),
            spec_find_var(vars@, title@) == spec_find_var(vars@.skip(i as int), title@),
        decreases n - i,
    {
        if str_eq(vars[i].title.as_str(), title) {
            return Some(&vars[i]);
        }
        proof {
            assert(vars@.skip(i as int).skip(1) =~= vars@.skip(i + 1));
        }
        i = i + 1;
    }
    None
}

/// Whether the variable titled `title` exists and is secret.
pub fn is_secret_var(vars: &Vec<Variable>, title: &str) -> (r: bool)
    ensures
        r == match spec_find_var(vars@, title@) {
            Some(v) => v.is_secret,
            None => false,
        },
{
    match find_var(vars, title) {
        Some(v) => v.is_secret,
        None => false,
    }
}

/// The titles of all variables, in order.
pub fn var_titles(vars: &Vec<Variable>) -> (r: Vec<String>)
    ensures
        r.deep_view() == vars@.map_values(|v: Variable| v.title@),
{
    let mut r: Vec<String> = Vec::new();
    let n = vars.len();
    let mut i: usize = 0;
    while i < n
        invariant
            i <= n,
            n == vars@.len(),
            r.deep_view() =~= vars@.take(i as int).map_values(|v: Variable| v.title@),
        decreases n - i,
    {
        let ghost before = r.deep_view();
        r.push(vars[i].title.clone());
        proof {
            assert(r.deep_view() =~= before.push(vars@[i as int].title@));
            assert(vars@.take(i + 1) =~= vars@.take(i as int).push(vars@[i as int]));
        }
        i = i + 1;
    }
    proof {
        assert(vars@.take(n as int) =~= vars@);
    }
    r
}

} // verus!
