//! Check actions: run a command, then decide success by testing regular
//! expressions against the captured output. The verdict is a pure function
//! of the pattern texts and the joined output text.

use vstd::prelude::*;
use vstd::string::*;

use crate::command::{spec_command_eq, CustomCommand};
use crate::strutil::{join_lines, spec_join, str_eq};

verus! {

/// Whether the regular expression `pattern` matches somewhere in `text`.
/// Named, not defined: the regex engine decides it, from the two strings
/// alone. A pattern that does not compile counts as not matching.
pub uninterp spec fn regex_found(pattern: Seq<char>, text: Seq<char>) -> bool;

/// Relies on `regex::Regex::new` and `regex::Regex::is_match`: whether the
/// pattern compiles, and whether it then matches the haystack, depend on the
/// pattern and haystack strings alone. An uncompilable pattern yields false.
#[verifier::external_body]
fn regex_is_match(pattern: &str, text: &str) -> (r: bool)
    ensures
        r == regex_found(pattern@, text@),
{
    match regex::Regex::new(pattern) {
        Ok(re) => re.is_match(text),
        Err(_) => false,
    }
}

/// A command whose captured output is held against regex conditions.
#[derive(Clone, Debug)]
pub struct CheckAction {
    pub command: CustomCommand,
    /// When set, the check passes only if this pattern matches the output.
    pub success_when_found: Option<String>,
    /// When set, the check passes only if this pattern does not match.
    pub success_when_not_found: Option<String>,
}

/// The pattern text an optional regex field carries.
pub open spec fn opt_pattern_view(p: Option<String>) -> Option<Seq<char>> {
    match p {
        Some(s) => Some(s@),
        None => None,
    }
}

/// The check's verdict on captured text: every configured condition must
/// hold; a check with neither pattern set passes vacuously.
pub open spec fn spec_check_verdict(check: CheckAction, text: Seq<char>) -> bool {
    (match check.success_when_found {
        Some(p) => regex_found(p@, text),
        None => true,
    }) && (match check.success_when_not_found {
        Some(p) => !regex_found(p@, text),
        None => true,
    })
}

/// The note line reporting one pattern test.
pub open spec fn spec_pattern_note(pattern: Seq<char>, found: bool) -> Seq<char> {
    "Pattern `"@ + pattern + "` "@ + (if found {
        "found"@
    } else {
        "not found"@
    }) + "!"@
}

/// The note lines a check evaluation emits: one per tested condition, and
/// the second condition is not tested once the first has failed.
pub open spec fn spec_check_notes(check: CheckAction, text: Seq<char>) -> Seq<Seq<char>> {
    let first: Seq<Seq<char>> = match check.success_when_found {
        Some(p) => seq![spec_pattern_note(p@, regex_found(p@, text))],
        None => Seq::empty(),
    };
    let first_pass = match check.success_when_found {
        Some(p) => regex_found(p@, text),
        None => true,
    };
    if !first_pass {
        first
    } else {
        first + (match check.success_when_not_found {
            Some(p) => seq![spec_pattern_note(p@, regex_found(p@, text))],
            None => Seq::empty(),
        })
    }
}

fn pattern_note(pattern: &str, found: bool) -> (r: String)
    ensures
        r@ == spec_pattern_note(pattern@, found),
{
    let mut r = String::from_str("Pattern `");
    r.append(pattern);
    r.append("` ");
    if found {
        r.append("found");
    } else {
        r.append("not found");
    }
    r.append("!");
    r
}

impl CheckAction {
    /// Tests the configured regex conditions against the joined output lines
    /// of this check's command. Returns the verdict and the note lines.
    pub fn evaluate(&self, command_out: &Vec<String>) -> (r: (bool, Vec<String>))
        ensures
            r.0 == spec_check_verdict(*self, spec_join(command_out.deep_view())),
            r.1.deep_view() == spec_check_notes(*self, spec_join(command_out.deep_view())),
    {
        let text = join_lines(command_out);
        let mut output: Vec<String> = Vec::new();
        proof {
            assert(output.deep_view() =~= Seq::<Seq<char>>::empty());
        }
        if let Some(re) = &self.success_when_found {
            let m = regex_is_match(re.as_str(), text.as_str());
            let ghost before = output.deep_view();
            output.push(pattern_note(re.as_str(), m));
            proof {
                assert(output.deep_view() =~= before.push(spec_pattern_note(re@, m)));
                assert(output.deep_view() =~= seq![
                    spec_pattern_note(re@, regex_found(re@, text@)),
                ]);
            }
            if !m {
                return (false, output);
            }
        }
        let ghost first = output.deep_view();
        if let Some(re) = &self.success_when_not_found {
            let m = regex_is_match(re.as_str(), text.as_str());
            output.push(pattern_note(re.as_str(), m));
            proof {
                assert(output.deep_view() =~= first.push(spec_pattern_note(re@, m)));
                assert(output.deep_view() =~= first + seq![
                    spec_pattern_note(re@, regex_found(re@, text@)),
                ]);
            }
            if m {
                return (false, output);
            }
        }
        proof {
            assert(output.deep_view() =~= spec_check_notes(
                *self,
                spec_join(command_out.deep_view()),
            ));
        }
        (true, output)
    }

    /// Structural equality with another check: same command, and the same
    /// pattern texts in both regex slots.
    pub fn eq(&self, other: &Self) -> (r: bool)
        ensures
            r == spec_check_eq(*self, *other),
    {
        if !self.command.eq(&other.command) {
            return false;
        }
        let found_eq = match (&self.success_when_found, &other.success_when_found) {
            (None, None) => true,
            (Some(a), Some(b)) => str_eq(a.as_str(), b.as_str()),
            _ => false,
        };
        if !found_eq {
            return false;
        }
        match (&self.success_when_not_found, &other.success_when_not_found) {
            (None, None) => true,
            (Some(a), Some(b)) => str_eq(a.as_str(), b.as_str()),
            _ => false,
        }
    }
}

/// Structural equality of checks.
pub open spec fn spec_check_eq(a: CheckAction, b: CheckAction) -> bool {
    spec_command_eq(a.command, b.command) && opt_pattern_view(a.success_when_found)
        == opt_pattern_view(b.success_when_found) && opt_pattern_view(a.success_when_not_found)
        == opt_pattern_view(b.success_when_not_found)
}

/// Law: a check's verdict is a pure function of its two pattern texts and
/// the captured output text. Two checks whose patterns read the same, held
/// against byte-identical captured text, reach the same verdict — so
/// evaluating one check twice against the same output cannot disagree.
pub proof fn lemma_check_verdict_pure(a: CheckAction, b: CheckAction, t1: Seq<char>, t2: Seq<char>)
    requires
        opt_pattern_view(a.success_when_found) == opt_pattern_view(b.success_when_found),
        opt_pattern_view(a.success_when_not_found) == opt_pattern_view(b.success_when_not_found),
        t1 == t2,
    ensures
        spec_check_verdict(a, t1) == spec_check_verdict(b, t2),
        spec_check_notes(a, t1) == spec_check_notes(b, t2),
{
}

} // verus!
