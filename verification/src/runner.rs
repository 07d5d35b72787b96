//! Running one command: the skip rule for non-fresh builds, the ordered
//! invocations over its substitution sets, the composition of human-readable
//! output from captured stdout/stderr, and the failure policy. The run is a
//! state machine: the driver spawns the invocation [`CommandRun::current`]
//! names and feeds the observed [`ProcessOutcome`] back through
//! [`CommandRun::absorb`]; every decision in between is verified here.

use vstd::prelude::*;
use vstd::string::*;

use crate::command::{spec_invocations, CustomCommand};
use crate::environment::BuildEnvironment;
use crate::strutil::{is_blank, spec_is_blank, spec_lines, split_lines};

verus! {

/// What the driver observed of one spawned process.
#[derive(Clone, Debug)]
pub struct ProcessOutcome {
    pub success: bool,
    pub stdout: String,
    pub stderr: String,
}

/// The `shell -c "command"` text shown in output headers.
pub open spec fn spec_command_info(shell: Seq<char>, cmd: Seq<char>) -> Seq<char> {
    shell + " -c \""@ + cmd + "\""@
}

/// Builds the `shell -c "command"` header text.
pub fn command_info(shell: &str, cmd: &str) -> (r: String)
    ensures
        r@ == spec_command_info(shell@, cmd@),
{
    let mut r = shell.to_owned();
    r.append(" -c \"");
    r.append(cmd);
    r.append("\"");
    r
}

/// The output lines kept from one captured stream: its lines, each behind a
/// `>>> ` prefix, with a final blank line dropped.
pub open spec fn spec_emitted_lines(text: Seq<char>) -> Seq<Seq<char>> {
    let ls = spec_lines(text);
    let kept = if ls.len() > 0 && spec_is_blank(ls[ls.len() - 1]) {
        ls.take(ls.len() - 1)
    } else {
        ls
    };
    kept.map_values(|l: Seq<char>| ">>> "@ + l)
}

fn prefixed_line(line: &str) -> (r: String)
    ensures
        r@ == ">>> "@ + line@,
{
    let mut r = String::from_str(">>> ");
    r.append(line);
    r
}

fn emit_lines(text: &str, out: &mut Vec<String>)
    ensures
        final(out).deep_view() == old(out).deep_view() + spec_emitted_lines(text@),
{
    let ls = split_lines(text);
    let total = ls.len();
    let k = if total > 0 && is_blank(ls[total - 1].as_str()) {
        total - 1
    } else {
        total
    };
    let ghost kept = if ls.deep_view().len() > 0 && spec_is_blank(
        ls.deep_view()[ls.deep_view().len() - 1],
    ) {
        ls.deep_view().take(ls.deep_view().len() - 1)
    } else {
        ls.deep_view()
    };
    let ghost base = out.deep_view();
    let mut i: usize = 0;
    proof {
        assert(base + kept.take(0).map_values(|l: Seq<char>| ">>> "@ + l) =~= base);
    }
    while i < k
        invariant
            i <= k,
            k <= ls@.len(),
            kept.len() == k,
            forall|j: int| 0 <= j < k ==> kept[j] == ls.deep_view()[j],
            out.deep_view() == base + kept.take(i as int).map_values(|l: Seq<char>| ">>> "@ + l),
        decreases k - i,
    {
        let ghost before = out.deep_view();
        out.push(prefixed_line(ls[i].as_str()));
        proof {
            assert(out.deep_view() =~= before.push(">>> "@ + ls.deep_view()[i as int]));
            assert(kept.take(i + 1) =~= kept.take(i as int).push(kept[i as int]));
            assert(kept.take(i + 1).map_values(|l: Seq<char>| ">>> "@ + l) =~= kept.take(
                i as int,
            ).map_values(|l: Seq<char>| ">>> "@ + l).push(">>> "@ + kept[i as int]));
            assert(out.deep_view() =~= base + kept.take(i + 1).map_values(
                |l: Seq<char>| ">>> "@ + l,
            ));
        }
        i = i + 1;
    }
    proof {
        assert(kept.take(k as int) =~= kept);
        assert(spec_emitted_lines(text@) == kept.map_values(|l: Seq<char>| ">>> "@ + l));
    }
}

/// The body of the composed output, before the failure-trim cap: an
/// `Executing` header when anything was captured, the stdout lines, an
/// `Errors:` marker on failure, and the stderr lines.
pub open spec fn spec_compose_core(
    info: Seq<char>,
    out: Seq<char>,
    err: Seq<char>,
    success: bool,
    show_bash_c: bool,
) -> Seq<Seq<char>> {
    let header = if !spec_is_blank(out) || !spec_is_blank(err) {
        if show_bash_c {
            seq!["Executing `"@ + info + "`:"@]
        } else {
            seq!["Executing the command:"@]
        }
    } else {
        Seq::empty()
    };
    let out_block = if !spec_is_blank(out) {
        spec_emitted_lines(out)
    } else {
        Seq::empty()
    };
    let err_marker = if !spec_is_blank(err) && !success {
        seq!["Errors:"@]
    } else {
        Seq::empty()
    };
    let err_block = if !spec_is_blank(err) {
        spec_emitted_lines(err)
    } else {
        Seq::empty()
    };
    header + out_block + err_marker + err_block
}

/// On failure an optional cap keeps only the most recent lines.
pub open spec fn spec_apply_trim(
    core: Seq<Seq<char>>,
    success: bool,
    trim: Option<usize>,
) -> Seq<Seq<char>> {
    match trim {
        Some(num) => if !success && num <= core.len() {
            core.skip(core.len() - num)
        } else {
            core
        },
        None => core,
    }
}

/// The human-readable lines kept for one invocation: nothing on a quiet
/// success, else the composed body under the failure-trim cap.
pub open spec fn spec_compose_output(
    info: Seq<char>,
    out: Seq<char>,
    err: Seq<char>,
    success: bool,
    show_success_output: bool,
    show_bash_c: bool,
    trim: Option<usize>,
) -> Seq<Seq<char>> {
    if success && !show_success_output {
        Seq::empty()
    } else {
        spec_apply_trim(spec_compose_core(info, out, err, success, show_bash_c), success, trim)
    }
}

fn apply_trim(output: Vec<String>, success: bool, trim: Option<usize>) -> (r: Vec<String>)
    ensures
        r.deep_view() == spec_apply_trim(output.deep_view(), success, trim),
{
    let keep = match trim {
        Some(num) => if !success && num <= output.len() {
            Some(num)
        } else {
            None
        },
        None => None,
    };
    match keep {
        None => output,
        Some(num) => {
            let len = output.len();
            let start = len - num;
            let mut r: Vec<String> = Vec::new();
            let mut i: usize = 0;
            while i < num
                invariant
                    i <= num,
                    num <= len,
                    start == len - num,
                    len == output@.len(),
                    r.deep_view() =~= output.deep_view().subrange(
                        start as int,
                        start + i,
                    ),
                decreases num - i,
            {
                let ghost before = r.deep_view();
                r.push(output[start + i].clone());
                proof {
                    assert(r.deep_view() =~= before.push(output.deep_view()[start + i]));
                    assert(output.deep_view().subrange(start as int, start + i + 1)
                        =~= output.deep_view().subrange(start as int, start + i).push(
                        output.deep_view()[start + i],
                    ));
                }
                i = i + 1;
            }
            proof {
                assert(output.deep_view().subrange(
                    start as int,
                    start as int + num as int,
                ) =~= output.deep_view().skip(output.deep_view().len() - num));
            }
            r
        },
    }
}

/// Composes the kept output lines for one invocation, as
/// `spec_compose_output` describes.
pub fn compose_output(
    bash_c_info: &str,
    stdout: &str,
    stderr: &str,
    success: bool,
    show_success_output: bool,
    show_bash_c: bool,
    trim_err_lines: Option<usize>,
) -> (r: Vec<String>)
    ensures
        r.deep_view() == spec_compose_output(
            bash_c_info@,
            stdout@,
            stderr@,
            success,
            show_success_output,
            show_bash_c,
            trim_err_lines,
        ),
{
    let mut output: Vec<String> = Vec::new();
    if success && !show_success_output {
        proof {
            assert(output.deep_view() =~= Seq::<Seq<char>>::empty());
        }
        return output;
    }
    let out_blank = is_blank(stdout);
    let err_blank = is_blank(stderr);
    let ghost sheader: Seq<Seq<char>> = if !spec_is_blank(stdout@) || !spec_is_blank(stderr@) {
        if show_bash_c {
            seq!["Executing `"@ + bash_c_info@ + "`:"@]
        } else {
            seq!["Executing the command:"@]
        }
    } else {
        Seq::empty()
    };
    let ghost sout: Seq<Seq<char>> = if !spec_is_blank(stdout@) {
        spec_emitted_lines(stdout@)
    } else {
        Seq::empty()
    };
    let ghost smarker: Seq<Seq<char>> = if !spec_is_blank(stderr@) && !success {
        seq!["Errors:"@]
    } else {
        Seq::empty()
    };
    let ghost serr: Seq<Seq<char>> = if !spec_is_blank(stderr@) {
        spec_emitted_lines(stderr@)
    } else {
        Seq::empty()
    };
    if !out_blank || !err_blank {
        if show_bash_c {
            let mut h = String::from_str("Executing `");
            h.append(bash_c_info);
            h.append("`:");
            let ghost hv = h@;
            output.push(h);
            proof {
                assert(output.deep_view() =~= seq![hv]);
            }
        } else {
            output.push(String::from_str("Executing the command:"));
            proof {
                assert(output.deep_view() =~= seq!["Executing the command:"@]);
            }
        }
    }
    proof {
        assert(output.deep_view() =~= sheader);
    }
    if !out_blank {
        emit_lines(stdout, &mut output);
    }
    proof {
        assert(output.deep_view() =~= sheader + sout);
    }
    let ghost with_out = output.deep_view();
    if !err_blank && !success {
        output.push(String::from_str("Errors:"));
        proof {
            assert(output.deep_view() =~= with_out.push("Errors:"@));
        }
    }
    proof {
        assert(output.deep_view() =~= sheader + sout + smarker);
    }
    if !err_blank {
        emit_lines(stderr, &mut output);
    }
    proof {
        assert(output.deep_view() =~= sheader + sout + smarker + serr);
        assert(output.deep_view() =~= spec_compose_core(
            bash_c_info@,
            stdout@,
            stderr@,
            success,
            show_bash_c,
        ));
    }
    apply_trim(output, success, trim_err_lines)
}

/// The shell commands run through: the environment's override when one is
/// set, else the default POSIX shell.
pub fn shell_or_default(overridden: Option<String>) -> (r: String)
    ensures
        match overridden {
            Some(path) => r == path,
            None => r@ == "/bin/bash"@,
        },
{
    match overridden {
        Some(path) => path,
        None => String::from_str("/bin/bash"),
    }
}

/// The notice returned when a fresh-build-only command is skipped.
pub fn skip_notice() -> (r: String)
    ensures
        r@ == "Skip a command due to not a fresh build..."@,
{
    String::from_str("Skip a command due to not a fresh build...")
}

/// One command's execution in flight: the planned invocations, how many have
/// completed, the output kept so far, and whether the run failed or was
/// skipped outright.
pub struct CommandRun {
    /// The substituted command texts still to be spawned, in order.
    pub invocations: Vec<String>,
    /// The `shell -c "..."` header text for each invocation.
    pub infos: Vec<String>,
    /// Directory each invocation runs in.
    pub cwd: String,
    pub ignore_fails: bool,
    pub show_success_output: bool,
    pub show_bash_c: bool,
    /// Inherit stdio instead of capturing; no output lines are kept.
    pub no_pipe: bool,
    /// Failure cap on kept output lines.
    pub trim_err_lines: Option<usize>,
    /// Index of the next invocation to spawn.
    pub next: usize,
    /// Output lines kept so far.
    pub output: Vec<String>,
    /// An invocation failed and failures are not ignored.
    pub failed: bool,
    /// The command was skipped because the build is not fresh.
    pub skipped: bool,
}

impl CommandRun {
    /// Basic well-formedness of the run state.
    pub open spec fn wf(self) -> bool {
        self.next <= self.invocations@.len() && self.infos@.len() == self.invocations@.len()
            && (self.skipped ==> self.next == 0)
    }

    /// The run needs no further process: it was skipped, it failed, or every
    /// invocation completed.
    pub open spec fn spec_done(self) -> bool {
        self.skipped || self.failed || self.next == self.invocations@.len()
    }

    /// Starts a run of `cmd` under `env`. A command restricted to fresh
    /// builds is skipped — reported successful with a single notice line —
    /// when the build directory was not freshly created.
    pub fn start(
        cmd: &CustomCommand,
        env: &BuildEnvironment,
        shell: &str,
        trim_err_lines: Option<usize>,
    ) -> (r: CommandRun)
        ensures
            r.wf(),
            r.skipped == (!env.new_build && cmd.only_when_fresh == Some(true)),
            r.skipped ==> r.output.deep_view() == seq![
                "Skip a command due to not a fresh build..."@,
            ],
            !r.skipped ==> r.output.deep_view() == Seq::<Seq<char>>::empty(),
            r.invocations.deep_view() == spec_invocations(*cmd),
            r.infos.deep_view() == spec_invocations(*cmd).map_values(
                |c: Seq<char>| spec_command_info(shell@, c),
            ),
            r.cwd@ == env.build_dir@,
            r.ignore_fails == cmd.ignore_fails,
            r.show_success_output == cmd.show_success_output,
            r.show_bash_c == cmd.show_bash_c,
            r.no_pipe == env.no_pipe,
            r.trim_err_lines == trim_err_lines,
            r.next == 0,
            !r.failed,
    {
        let skipped = !env.new_build && match cmd.only_when_fresh {
            Some(v) => v,
            None => false,
        };
        let mut output: Vec<String> = Vec::new();
        if skipped {
            output.push(skip_notice());
        }
        let invocations = cmd.invocations();
        let mut infos: Vec<String> = Vec::new();
        let n = invocations.len();
        let mut i: usize = 0;
        while i < n
            invariant
                i <= n,
                n == invocations@.len(),
                infos.deep_view() =~= invocations.deep_view().take(i as int).map_values(
                    |c: Seq<char>| spec_command_info(shell@, c),
                ),
        decreases n - i,
        {
            let ghost before = infos.deep_view();
            infos.push(command_info(shell, invocations[i].as_str()));
            proof {
                let iv = invocations.deep_view();
                assert(infos.deep_view() =~= before.push(spec_command_info(shell@, iv[i as int])));
                assert(iv.take(i + 1) =~= iv.take(i as int).push(iv[i as int]));
                assert(iv.take(i + 1).map_values(|c: Seq<char>| spec_command_info(shell@, c))
                    =~= iv.take(i as int).map_values(
                    |c: Seq<char>| spec_command_info(shell@, c),
                ).push(spec_command_info(shell@, iv[i as int])));
            }
            i = i + 1;
        }
        proof {
            assert(invocations.deep_view().take(n as int) =~= invocations.deep_view());
        }
        let r = CommandRun {
            invocations,
            infos,
            cwd: env.build_dir.clone(),
            ignore_fails: cmd.ignore_fails,
            show_success_output: cmd.show_success_output,
            show_bash_c: cmd.show_bash_c,
            no_pipe: env.no_pipe,
            trim_err_lines,
            next: 0,
            output,
            failed: false,
            skipped,
        };
        proof {
            if r.skipped {
                assert(r.output.deep_view() =~= seq![
                    "Skip a command due to not a fresh build..."@,
                ]);
            } else {
                assert(r.output.deep_view() =~= Seq::<Seq<char>>::empty());
            }
        }
        r
    }

    /// A finished run with no invocations, no output and no failure; the
    /// neutral value a machine holds between commands.
    pub fn idle() -> (r: CommandRun)
        ensures
            r.wf(),
            r.spec_done(),
            !r.failed,
            !r.skipped,
            r.output@.len() == 0,
    {
        CommandRun {
            invocations: Vec::new(),
            infos: Vec::new(),
            cwd: String::new(),
            ignore_fails: false,
            show_success_output: false,
            show_bash_c: false,
            no_pipe: false,
            trim_err_lines: None,
            next: 0,
            output: Vec::new(),
            failed: false,
            skipped: false,
        }
    }

    /// Whether the run needs no further process.
    pub fn done(&self) -> (r: bool)
        requires
            self.wf(),
        ensures
            r == self.spec_done(),
    {
        self.skipped || self.failed || self.next >= self.invocations.len()
    }

    /// The command text the driver must spawn next.
    pub fn current(&self) -> (r: &String)
        requires
            self.wf(),
            !self.spec_done(),
        ensures
            r@ == self.invocations.deep_view()[self.next as int],
    {
        &self.invocations[self.next]
    }

    /// Feeds back the outcome of the invocation `current` named. On a
    /// non-ignored failure the run stops in the failed state; otherwise it
    /// moves to the next invocation. In piped mode the composed output of
    /// the invocation is appended; in inherited-stdio mode nothing is kept.
    pub fn absorb(&mut self, outcome: ProcessOutcome)
        requires
            old(self).wf(),
            !old(self).spec_done(),
        ensures
            final(self).wf(),
            final(self).failed == (!outcome.success && !old(self).ignore_fails),
            final(self).failed ==> final(self).next == old(self).next,
            !final(self).failed ==> final(self).next == old(self).next + 1,
            old(self).no_pipe ==> final(self).output == old(self).output,
            !old(self).no_pipe ==> final(self).output.deep_view() == old(
                self,
            ).output.deep_view() + spec_compose_output(
                old(self).infos.deep_view()[old(self).next as int],
                outcome.stdout@,
                outcome.stderr@,
                outcome.success,
                old(self).show_success_output,
                old(self).show_bash_c,
                old(self).trim_err_lines,
            ),
            final(self).invocations == old(self).invocations,
            final(self).infos == old(self).infos,
            final(self).cwd == old(self).cwd,
            final(self).ignore_fails == old(self).ignore_fails,
            final(self).show_success_output == old(self).show_success_output,
            final(self).show_bash_c == old(self).show_bash_c,
            final(self).no_pipe == old(self).no_pipe,
            final(self).trim_err_lines == old(self).trim_err_lines,
            final(self).skipped == old(self).skipped,
    {
        if !self.no_pipe {
            let ghost base = self.output.deep_view();
            let mut lines = compose_output(
                self.infos[self.next].as_str(),
                outcome.stdout.as_str(),
                outcome.stderr.as_str(),
                outcome.success,
                self.show_success_output,
                self.show_bash_c,
                self.trim_err_lines,
            );
            let ghost lv = lines.deep_view();
            self.output.append(&mut lines);
            proof {
                assert(self.output.deep_view() =~= base + lv);
            }
        }
        if !outcome.success && !self.ignore_fails {
            self.failed = true;
        } else {
            let n = self.invocations.len();
            assert(self.next < n);
            self.next = self.next + 1;
        }
    }

    /// The uniform result of a finished run: overall success and the output
    /// lines kept. A skipped run counts as successful.
    pub fn result(self) -> (r: (bool, Vec<String>))
        requires
            self.spec_done(),
        ensures
            r.0 == !self.failed,
            r.1 == self.output,
    {
        (!self.failed, self.output)
    }
}

/// The view of the skip notice.
pub open spec fn skip_notice_view() -> Seq<char> {
    "Skip a command due to not a fresh build..."@
}

} // verus!
