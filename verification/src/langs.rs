//! Programming languages a project declares; used at authoring time to judge
//! whether a build-like action is compatible with a project.

use vstd::prelude::*;
use vstd::string::*;

use crate::strutil::str_eq;

verus! {

/// A programming language, either one of the built-in ones or a custom name.
#[derive(Clone, Debug)]
pub enum ProgrammingLanguage {
    Rust,
    Go,
    C,
    Cpp,
    Python,
    Other(String),
}

/// The display name of a language.
pub open spec fn lang_view(l: ProgrammingLanguage) -> Seq<char> {
    match l {
        ProgrammingLanguage::Rust => "Rust"@,
        ProgrammingLanguage::Go => "Go"@,
        ProgrammingLanguage::C => "C"@,
        ProgrammingLanguage::Cpp => "C++"@,
        ProgrammingLanguage::Python => "Python"@,
        ProgrammingLanguage::Other(s) => s@,
    }
}

/// Whether `s` names one of the built-in languages.
pub open spec fn is_builtin_lang_name(s: Seq<char>) -> bool {
    s == "Rust"@ || s == "Go"@ || s == "C"@ || s == "C++"@ || s == "Python"@
}

impl ProgrammingLanguage {
    /// The language named `s`: a built-in one, or a custom entry.
    pub fn from_name(s: &str) -> (r: Self)
        ensures
            lang_view(r) == s@,
            !(r is Other) ==> is_builtin_lang_name(s@),
            r is Other ==> !is_builtin_lang_name(s@),
    {
        if str_eq(s, "Rust") {
            ProgrammingLanguage::Rust
        } else if str_eq(s, "Go") {
            ProgrammingLanguage::Go
        } else if str_eq(s, "C") {
            ProgrammingLanguage::C
        } else if str_eq(s, "C++") {
            ProgrammingLanguage::Cpp
        } else if str_eq(s, "Python") {
            ProgrammingLanguage::Python
        } else {
            ProgrammingLanguage::Other(s.to_owned())
        }
    }

    /// The display name of this language.
    pub fn name(&self) -> (r: String)
        ensures
            r@ == lang_view(*self),
    {
        match self {
            ProgrammingLanguage::Rust => String::from_str("Rust"),
            ProgrammingLanguage::Go => String::from_str("Go"),
            ProgrammingLanguage::C => String::from_str("C"),
            ProgrammingLanguage::Cpp => String::from_str("C++"),
            ProgrammingLanguage::Python => String::from_str("Python"),
            ProgrammingLanguage::Other(s) => s.clone(),
        }
    }
}

/// The names of `names` that are not built-in language names, in order.
pub open spec fn spec_custom_names(names: Seq<Seq<char>>) -> Seq<Seq<char>>
    decreases names.len(),
{
    if names.len() == 0 {
        Seq::empty()
    } else if is_builtin_lang_name(names[0]) {
        spec_custom_names(names.skip(1))
    } else {
        seq![names[0]] + spec_custom_names(names.skip(1))
    }
}

/// Turns free-form language names into custom language entries, dropping any
/// that merely repeat a built-in language name.
pub fn collect_multiple_languages(names: Vec<String>) -> (r: Vec<ProgrammingLanguage>)
    ensures
        r@.map_values(|l: ProgrammingLanguage| lang_view(l)) == spec_custom_names(names.deep_view()),
        forall|i: int| 0 <= i < r@.len() ==> r@[i] is Other,
{
    let ghost nv = names.deep_view();
    let mut r: Vec<ProgrammingLanguage> = Vec::new();
    let n = names.len();
    let mut i: usize = 0;
    proof {
        assert(nv.skip(0) =~= nv);
        assert(r@.map_values(|l: ProgrammingLanguage| lang_view(l)) =~= Seq::<Seq<char>>::empty());
    }
    while i < n
        invariant
            i <= n,
            n == names@.len(),
            nv == names.deep_view(),
            nv.len() == n,
            forall|k: int| 0 <= k < r@.len() ==> r@[k] is Other,
            spec_custom_names(nv) == r@.map_values(|l: ProgrammingLanguage| lang_view(l))
                + spec_custom_names(nv.skip(i as int)),
        decreases n - i,
    {
        let ghost before = r@;
        let name = &names[i];
        let keep = !(str_eq(name.as_str(), "Rust") || str_eq(name.as_str(), "Go") || str_eq(
            name.as_str(),
            "C",
        ) || str_eq(name.as_str(), "C++") || str_eq(name.as_str(), "Python"));
        if keep {
            r.push(ProgrammingLanguage::Other(name.clone()));
        }
        proof {
            assert(nv.skip(i as int)[0] == nv[i as int]);
            assert(nv.skip(i as int).skip(1) =~= nv.skip(i + 1));
            if keep {
                assert(r@.map_values(|l: ProgrammingLanguage| lang_view(l)) =~= before.map_values(
                    |l: ProgrammingLanguage| lang_view(l),
                ).push(nv[i as int]));
                assert(before.map_values(|l: ProgrammingLanguage| lang_view(l)).push(nv[i as int])
                    + spec_custom_names(nv.skip(i + 1)) =~= before.map_values(
                    |l: ProgrammingLanguage| lang_view(l),
                ) + (seq![nv[i as int]] + spec_custom_names(nv.skip(i + 1))));
            }
        }
        i = i + 1;
    }
    proof {
        assert(nv.skip(n as int) =~= Seq::<Seq<char>>::empty());
        assert(r@.map_values(|l: ProgrammingLanguage| lang_view(l)) + Seq::<Seq<char>>::empty()
            =~= r@.map_values(|l: ProgrammingLanguage| lang_view(l)));
    }
    r
}

} // verus!
