//! The pipeline executor: walks a pipeline's ordered actions, delegating
//! each to the command runner, and halts at the first unrecovered failure.
//!
//! The executor is a state machine driven from outside. [`PipelineRun::step`]
//! advances the run until it either finishes or needs the driver to act —
//! spawn a process, remove paths, place artifacts, or wait for the user —
//! and the driver reports what happened through the matching feed method.
//! Once a step aborts the run, `step` only ever reports `Finished`: no later
//! action of the pipeline is started.

use vstd::prelude::*;
use vstd::string::*;

use crate::actions::{
    action_command_at, action_command_count, spec_action_commands, spec_is_check, spec_is_observe,
    Action, DescribedAction,
};
use crate::check::{spec_check_notes, spec_check_verdict};
use crate::command::{spec_invocations, CustomCommand};
use crate::environment::BuildEnvironment;
use crate::runner::{skip_notice_view, spec_command_info, CommandRun, ProcessOutcome};
use crate::strutil::{path_join, spec_join, spec_path_join};

verus! {

/// The outcome of one completed action: its success flag and output lines.
pub struct ActionResult {
    pub success: bool,
    pub output: Vec<String>,
}

/// Where the run stands between two calls into the machine.
#[derive(Clone, Copy, Debug)]
pub enum Phase {
    /// Between actions: the next action (if any) has not been lowered yet.
    Idle,
    /// Inside a command action: the next command has not been started yet.
    StartCommands,
    /// The driver was asked to remove the clean action's paths.
    AwaitRemoval,
    /// A command run is in flight.
    Running,
    /// The driver was asked to place artifacts.
    AwaitEnplace,
    /// The driver was asked to wait for the user's acknowledgment.
    AwaitAck,
    /// The pipeline finished, normally or by abort.
    Done,
}

/// What the machine asks of the driver, or that it is done.
pub enum StepResult {
    /// State advanced internally; call `step` again.
    Continue,
    /// Spawn `shell -c command` in `cwd`; feed back through `process`.
    Spawn { command: String, cwd: String, pipe: bool },
    /// Remove each path (file or directory); feed back through `removed`.
    RemovePaths { paths: Vec<String> },
    /// Place declared artifacts into each directory; feed back through
    /// `enplaced`.
    Enplace { artifact_dirs: Vec<String> },
    /// Wait for the user's acknowledgment; feed back through `acked`.
    AwaitAck,
    /// The run is over; no further work will be requested.
    Finished { aborted: bool },
}

/// A command run freshly started from `cmd` under `env`: what
/// `CommandRun::start` promises, restated over the stored state.
pub open spec fn spec_run_for(
    run: CommandRun,
    cmd: CustomCommand,
    env: BuildEnvironment,
    shell: Seq<char>,
    trim: Option<usize>,
    observe: bool,
) -> bool {
    &&& run.invocations.deep_view() == spec_invocations(cmd)
    &&& run.infos.deep_view() == spec_invocations(cmd).map_values(
        |c: Seq<char>| spec_command_info(shell, c),
    )
    &&& run.cwd@ == env.build_dir@
    &&& run.ignore_fails == cmd.ignore_fails
    &&& run.show_success_output == cmd.show_success_output
    &&& run.show_bash_c == cmd.show_bash_c
    &&& run.no_pipe == (env.no_pipe || observe)
    &&& run.trim_err_lines == trim
    &&& run.next == 0
    &&& !run.failed
    &&& run.skipped == (!env.new_build && cmd.only_when_fresh == Some(true))
    &&& (run.skipped ==> run.output.deep_view() == seq![skip_notice_view()])
    &&& (!run.skipped ==> run.output.deep_view() == Seq::<Seq<char>>::empty())
}

/// One pipeline execution in flight.
pub struct PipelineRun {
    /// The pipeline's actions, in execution order.
    pub actions: Vec<DescribedAction>,
    /// The environment every action runs in.
    pub env: BuildEnvironment,
    /// The shell binary commands run through.
    pub shell: String,
    /// Failure cap on kept output lines, per invocation.
    pub trim_err_lines: Option<usize>,
    /// Index of the action being executed (or, in `Idle`, up next).
    pub idx: usize,
    /// The first unrecovered failure has aborted the run.
    pub aborted: bool,
    /// One result per completed action, in order.
    pub results: Vec<ActionResult>,
    pub phase: Phase,
    /// Index of the current command within the current action.
    pub cmd_idx: usize,
    /// The command run in flight (meaningful in `Running` only).
    pub run: CommandRun,
    /// Output accumulated by the current action's earlier commands.
    pub acc: Vec<String>,
}

impl PipelineRun {
    /// The action the run currently stands at.
    pub open spec fn cur_action(self) -> Action {
        self.actions@[self.idx as int].action
    }

    /// Structural well-formedness, preserved by every transition.
    pub open spec fn wf(self) -> bool {
        &&& self.idx <= self.actions@.len()
        &&& self.results@.len() == self.idx
        &&& (!(self.phase is Idle) && !(self.phase is Done) ==> self.idx < self.actions@.len())
        &&& (self.phase is Done ==> self.aborted || self.idx == self.actions@.len())
        &&& (self.phase is Running ==> self.run.wf())
        &&& (self.phase is StartCommands ==> self.cmd_idx <= spec_action_commands(
            self.cur_action(),
        ).len())
        &&& (self.phase is Running ==> self.cmd_idx < spec_action_commands(
            self.cur_action(),
        ).len())
        &&& (self.aborted ==> self.phase is Idle || self.phase is Done)
    }

    /// Begins a run of `actions` under `env`, using `shell` and the optional
    /// failure cap on kept output lines.
    pub fn start(
        actions: Vec<DescribedAction>,
        env: BuildEnvironment,
        shell: String,
        trim_err_lines: Option<usize>,
    ) -> (r: Self)
        ensures
            r.wf(),
            r.actions == actions,
            r.env == env,
            r.shell == shell,
            r.trim_err_lines == trim_err_lines,
            r.idx == 0,
            !r.aborted,
            r.results@.len() == 0,
            r.phase is Idle,
    {
        PipelineRun {
            actions,
            env,
            shell,
            trim_err_lines,
            idx: 0,
            aborted: false,
            results: Vec::new(),
            phase: Phase::Idle,
            cmd_idx: 0,
            run: CommandRun::idle(),
            acc: Vec::new(),
        }
    }

    /// Advances the run by one transition. Needs a feed method first when a
    /// removal, enplacement or acknowledgment is outstanding.
    pub fn step(&mut self) -> (r: StepResult)
        requires
            old(self).wf(),
            old(self).phase is Idle || old(self).phase is StartCommands || old(self).phase
                is Running || old(self).phase is Done,
        ensures
            final(self).wf(),
            final(self).actions == old(self).actions,
            final(self).env == old(self).env,
            final(self).shell == old(self).shell,
            final(self).trim_err_lines == old(self).trim_err_lines,
            // A finished or aborted run only ever reports Finished: no later
            // action is started once the pipeline has aborted.
            (old(self).phase is Done || (old(self).phase is Idle && (old(self).aborted || old(
                self,
            ).idx == old(self).actions@.len()))) <==> r is Finished,
            r is Finished ==> {
                &&& r matches StepResult::Finished { aborted: fin } && fin == old(self).aborted
                &&& final(self).phase is Done
                &&& final(self).results == old(self).results
                &&& final(self).idx == old(self).idx
                &&& final(self).aborted == old(self).aborted
            },
            // Lowering the next action.
            (old(self).phase is Idle && !old(self).aborted && old(self).idx < old(
                self,
            ).actions@.len()) ==> {
                &&& final(self).idx == old(self).idx
                &&& final(self).results == old(self).results
                &&& !final(self).aborted
                &&& (old(self).cur_action() is Interrupt ==> final(self).phase is AwaitAck && r
                    is AwaitAck)
                &&& (old(self).cur_action() is ForceArtifactsEnplace ==> final(self).phase
                    is AwaitEnplace && (r matches StepResult::Enplace { artifact_dirs }
                    && artifact_dirs.deep_view() == seq![
                    old(self).env.artifacts_dir@,
                    spec_path_join(old(self).env.build_dir@, "artifacts"@),
                ]))
                &&& (old(self).cur_action() matches Action::ProjectClean(pc) ==> final(self).phase
                    is AwaitRemoval && (r matches StepResult::RemovePaths { paths }
                    && paths.deep_view() == pc.to_remove.deep_view().map_values(
                    |p: Seq<char>| spec_path_join(old(self).env.build_dir@, p),
                )))
                &&& (!(old(self).cur_action() is Interrupt) && !(old(self).cur_action()
                    is ForceArtifactsEnplace) && !(old(self).cur_action() matches
                    Action::ProjectClean(_)) ==> {
                    &&& final(self).phase is StartCommands
                    &&& final(self).cmd_idx == 0
                    &&& final(self).acc@.len() == 0
                    &&& r is Continue
                })
            },
            // Starting the next command, or completing a command action.
            old(self).phase is StartCommands ==> {
                &&& r is Continue
                &&& (old(self).cmd_idx == spec_action_commands(old(self).cur_action()).len()
                    ==> {
                    &&& final(self).phase is Idle
                    &&& final(self).idx == old(self).idx + 1
                    &&& final(self).aborted == old(self).aborted
                    &&& final(self).results@.len() == old(self).results@.len() + 1
                    &&& final(self).results@.last().success == true
                    &&& final(self).results@.last().output == old(self).acc
                    &&& forall|j: int|
                        0 <= j < old(self).results@.len() ==> final(self).results@[j] == old(
                            self,
                        ).results@[j]
                })
                &&& (old(self).cmd_idx < spec_action_commands(old(self).cur_action()).len()
                    ==> {
                    &&& final(self).phase is Running
                    &&& final(self).idx == old(self).idx
                    &&& final(self).cmd_idx == old(self).cmd_idx
                    &&& final(self).results == old(self).results
                    &&& final(self).aborted == old(self).aborted
                    &&& final(self).acc == old(self).acc
                    &&& spec_run_for(
                        final(self).run,
                        spec_action_commands(old(self).cur_action())[old(self).cmd_idx as int],
                        old(self).env,
                        old(self).shell@,
                        old(self).trim_err_lines,
                        spec_is_observe(old(self).cur_action()),
                    )
                })
            },
            // A command run in flight: name the process to spawn.
            (old(self).phase is Running && !old(self).run.spec_done()) ==> {
                &&& *final(self) == *old(self)
                &&& (r matches StepResult::Spawn { command, cwd, pipe } && command@ == old(
                    self,
                ).run.invocations.deep_view()[old(self).run.next as int] && cwd@ == old(
                    self,
                ).run.cwd@ && pipe == !old(self).run.no_pipe)
            },
            // Harvesting a finished command run.
            (old(self).phase is Running && old(self).run.spec_done()) ==> {
                &&& r is Continue
                &&& (old(self).run.failed ==> {
                    &&& final(self).phase is Idle
                    &&& final(self).aborted
                    &&& final(self).idx == old(self).idx + 1
                    &&& final(self).results@.len() == old(self).results@.len() + 1
                    &&& final(self).results@.last().success == false
                    &&& final(self).results@.last().output.deep_view() == old(
                        self,
                    ).acc.deep_view() + old(self).run.output.deep_view()
                    &&& forall|j: int|
                        0 <= j < old(self).results@.len() ==> final(self).results@[j] == old(
                            self,
                        ).results@[j]
                })
                &&& (!old(self).run.failed && spec_is_check(old(self).cur_action()) ==> {
                    &&& final(self).phase is Idle
                    &&& final(self).idx == old(self).idx + 1
                    &&& (old(self).cur_action() matches Action::Check(c) ==> {
                        let text = spec_join(
                            old(self).acc.deep_view() + old(self).run.output.deep_view(),
                        );
                        &&& final(self).results@.last().success == spec_check_verdict(c, text)
                        &&& final(self).results@.last().output.deep_view() == spec_check_notes(
                            c,
                            text,
                        )
                        &&& final(self).aborted == !spec_check_verdict(c, text)
                    })
                    &&& final(self).results@.len() == old(self).results@.len() + 1
                    &&& forall|j: int|
                        0 <= j < old(self).results@.len() ==> final(self).results@[j] == old(
                            self,
                        ).results@[j]
                })
                &&& (!old(self).run.failed && !spec_is_check(old(self).cur_action()) ==> {
                    &&& final(self).phase is StartCommands
                    &&& final(self).cmd_idx == old(self).cmd_idx + 1
                    &&& final(self).idx == old(self).idx
                    &&& final(self).results == old(self).results
                    &&& final(self).aborted == old(self).aborted
                    &&& final(self).acc.deep_view() == old(self).acc.deep_view() + old(
                        self,
                    ).run.output.deep_view()
                })
            },
    {
        match self.phase {
            Phase::Done => {
                return StepResult::Finished { aborted: self.aborted };
            },
            Phase::Idle => {
                if self.aborted || self.idx >= self.actions.len() {
                    self.phase = Phase::Done;
                    return StepResult::Finished { aborted: self.aborted };
                }
                match &self.actions[self.idx].action {
                    Action::Interrupt => {
                        self.phase = Phase::AwaitAck;
                        StepResult::AwaitAck
                    },
                    Action::ForceArtifactsEnplace => {
                        let mut dirs: Vec<String> = Vec::new();
                        dirs.push(self.env.artifacts_dir.clone());
                        dirs.push(path_join(self.env.build_dir.as_str(), "artifacts"));
                        proof {
                            assert(dirs.deep_view() =~= seq![
                                self.env.artifacts_dir@,
                                spec_path_join(self.env.build_dir@, "artifacts"@),
                            ]);
                        }
                        self.phase = Phase::AwaitEnplace;
                        StepResult::Enplace { artifact_dirs: dirs }
                    },
                    Action::ProjectClean(pc) => {
                        let paths = joined_paths(self.env.build_dir.as_str(), &pc.to_remove);
                        self.phase = Phase::AwaitRemoval;
                        StepResult::RemovePaths { paths }
                    },
                    _ => {
                        self.cmd_idx = 0;
                        self.acc = Vec::new();
                        self.phase = Phase::StartCommands;
                        StepResult::Continue
                    },
                }
            },
            Phase::StartCommands => {
                let count = action_command_count(&self.actions[self.idx].action);
                if self.cmd_idx >= count {
                    let mut out: Vec<String> = Vec::new();
                    core::mem::swap(&mut out, &mut self.acc);
                    self.results.push(ActionResult { success: true, output: out });
                    let nacts = self.actions.len();
                    assert(self.idx < nacts);
                    self.idx = self.idx + 1;
                    self.phase = Phase::Idle;
                    return StepResult::Continue;
                }
                let observe = match &self.actions[self.idx].action {
                    Action::Observe(_) => true,
                    _ => false,
                };
                let env = if observe {
                    self.env.with_no_pipe()
                } else {
                    self.env.clone_exact()
                };
                let cmd = action_command_at(&self.actions[self.idx].action, self.cmd_idx);
                let run = CommandRun::start(cmd, &env, self.shell.as_str(), self.trim_err_lines);
                self.run = run;
                self.phase = Phase::Running;
                StepResult::Continue
            },
            Phase::Running => {
                if !self.run.done() {
                    let command = self.run.current().clone();
                    let cwd = self.run.cwd.clone();
                    let pipe = !self.run.no_pipe;
                    return StepResult::Spawn { command, cwd, pipe };
                }
                let failed = self.run.failed;
                let ghost old_acc = self.acc.deep_view();
                let ghost run_out = self.run.output.deep_view();
                self.acc.append(&mut self.run.output);
                proof {
                    assert(self.acc.deep_view() =~= old_acc + run_out);
                }
                if failed {
                    let mut out: Vec<String> = Vec::new();
                    core::mem::swap(&mut out, &mut self.acc);
                    self.results.push(ActionResult { success: false, output: out });
                    self.aborted = true;
                    let nacts = self.actions.len();
                    assert(self.idx < nacts);
                    self.idx = self.idx + 1;
                    self.phase = Phase::Idle;
                    return StepResult::Continue;
                }
                let is_check = match &self.actions[self.idx].action {
                    Action::Check(_) => true,
                    _ => false,
                };
                if is_check {
                    let (verdict, notes) = match &self.actions[self.idx].action {
                        Action::Check(c) => c.evaluate(&self.acc),
                        _ => unreached(),
                    };
                    self.results.push(ActionResult { success: verdict, output: notes });
                    if !verdict {
                        self.aborted = true;
                    }
                    let nacts = self.actions.len();
                    assert(self.idx < nacts);
                    self.idx = self.idx + 1;
                    self.phase = Phase::Idle;
                    self.acc = Vec::new();
                    return StepResult::Continue;
                }
                let count = action_command_count(&self.actions[self.idx].action);
                assert(self.cmd_idx < count);
                self.cmd_idx = self.cmd_idx + 1;
                self.phase = Phase::StartCommands;
                StepResult::Continue
            },
            _ => {
                unreached()
            },
        }
    }

    /// Feeds back the outcome of the process the last `Spawn` requested.
    pub fn process(&mut self, outcome: ProcessOutcome)
        requires
            old(self).wf(),
            old(self).phase is Running,
            !old(self).run.spec_done(),
        ensures
            final(self).wf(),
            final(self).phase is Running,
            final(self).actions == old(self).actions,
            final(self).env == old(self).env,
            final(self).shell == old(self).shell,
            final(self).trim_err_lines == old(self).trim_err_lines,
            final(self).idx == old(self).idx,
            final(self).cmd_idx == old(self).cmd_idx,
            final(self).aborted == old(self).aborted,
            final(self).results == old(self).results,
            final(self).acc == old(self).acc,
            // The failure policy: a non-ignored failure stops this command.
            final(self).run.failed == (!outcome.success && !old(self).run.ignore_fails),
            final(self).run.failed ==> final(self).run.next == old(self).run.next,
            !final(self).run.failed ==> final(self).run.next == old(self).run.next + 1,
            old(self).run.no_pipe ==> final(self).run.output == old(self).run.output,
            !old(self).run.no_pipe ==> final(self).run.output.deep_view() == old(
                self,
            ).run.output.deep_view() + crate::runner::spec_compose_output(
                old(self).run.infos.deep_view()[old(self).run.next as int],
                outcome.stdout@,
                outcome.stderr@,
                outcome.success,
                old(self).run.show_success_output,
                old(self).run.show_bash_c,
                old(self).run.trim_err_lines,
            ),
            final(self).run.invocations == old(self).run.invocations,
            final(self).run.infos == old(self).run.infos,
            final(self).run.cwd == old(self).run.cwd,
            final(self).run.ignore_fails == old(self).run.ignore_fails,
            final(self).run.no_pipe == old(self).run.no_pipe,
            final(self).run.skipped == old(self).run.skipped,
    {
        self.run.absorb(outcome);
    }

    /// Feeds back that the requested removals were performed.
    pub fn removed(&mut self)
        requires
            old(self).wf(),
            old(self).phase is AwaitRemoval,
        ensures
            final(self).wf(),
            final(self).phase is StartCommands,
            final(self).cmd_idx == 0,
            final(self).acc@.len() == 0,
            final(self).actions == old(self).actions,
            final(self).env == old(self).env,
            final(self).shell == old(self).shell,
            final(self).trim_err_lines == old(self).trim_err_lines,
            final(self).idx == old(self).idx,
            final(self).aborted == old(self).aborted,
            final(self).results == old(self).results,
    {
        self.cmd_idx = 0;
        self.acc = Vec::new();
        self.phase = Phase::StartCommands;
    }

    /// Feeds back that the artifacts were placed: the action succeeds with a
    /// single notice line.
    pub fn enplaced(&mut self)
        requires
            old(self).wf(),
            old(self).phase is AwaitEnplace,
        ensures
            final(self).wf(),
            final(self).phase is Idle,
            final(self).idx == old(self).idx + 1,
            final(self).aborted == old(self).aborted,
            final(self).results@.len() == old(self).results@.len() + 1,
            final(self).results@.last().success == true,
            final(self).results@.last().output.deep_view() == seq![
                "Artifacts are enplaced successfully."@,
            ],
            forall|j: int|
                0 <= j < old(self).results@.len() ==> final(self).results@[j] == old(
                    self,
                ).results@[j],
            final(self).actions == old(self).actions,
            final(self).env == old(self).env,
            final(self).shell == old(self).shell,
            final(self).trim_err_lines == old(self).trim_err_lines,
    {
        let mut out: Vec<String> = Vec::new();
        out.push(String::from_str("Artifacts are enplaced successfully."));
        proof {
            assert(out.deep_view() =~= seq!["Artifacts are enplaced successfully."@]);
        }
        self.results.push(ActionResult { success: true, output: out });
        let nacts = self.actions.len();
        assert(self.idx < nacts);
        self.idx = self.idx + 1;
        self.phase = Phase::Idle;
    }

    /// Feeds back the user's acknowledgment: the interrupt action succeeds
    /// with no output.
    pub fn acked(&mut self)
        requires
            old(self).wf(),
            old(self).phase is AwaitAck,
        ensures
            final(self).wf(),
            final(self).phase is Idle,
            final(self).idx == old(self).idx + 1,
            final(self).aborted == old(self).aborted,
            final(self).results@.len() == old(self).results@.len() + 1,
            final(self).results@.last().success == true,
            final(self).results@.last().output@.len() == 0,
            forall|j: int|
                0 <= j < old(self).results@.len() ==> final(self).results@[j] == old(
                    self,
                ).results@[j],
            final(self).actions == old(self).actions,
            final(self).env == old(self).env,
            final(self).shell == old(self).shell,
            final(self).trim_err_lines == old(self).trim_err_lines,
    {
        self.results.push(ActionResult { success: true, output: Vec::new() });
        let nacts = self.actions.len();
        assert(self.idx < nacts);
        self.idx = self.idx + 1;
        self.phase = Phase::Idle;
    }
}

/// The console and log line announcing a pipeline run.
pub fn pipeline_start_line(title: &str) -> (r: String)
    ensures
        r@ == "Starting the `"@ + title@ + "` Pipeline..."@,
{
    let mut r = String::from_str("Starting the `");
    r.append(title);
    r.append("` Pipeline...");
    r
}

/// The console and log line reporting one finished action: its position,
/// title, status and elapsed time (preformatted by the driver).
pub fn action_status_line(
    cntr: usize,
    total: usize,
    title: &str,
    success: bool,
    elapsed: &str,
) -> (r: String)
    ensures
        r@ == seq!['['] + crate::strutil::spec_decimal_digits(cntr as nat) + seq!['/']
            + crate::strutil::spec_decimal_digits(total as nat) + "] Action `"@ + title@ + "` -"@
            + (if success {
            " done"@
        } else {
            " got an error!"@
        }) + " ("@ + elapsed@ + ")."@,
{
    let mut r = String::from_str("[");
    proof {
        reveal_strlit("[");
        assert(r@ =~= seq!['[']);
    }
    r.append(crate::strutil::usize_to_string(cntr).as_str());
    r.append("/");
    proof {
        reveal_strlit("/");
        assert(r@ =~= seq!['['] + crate::strutil::spec_decimal_digits(cntr as nat) + seq!['/']);
    }
    r.append(crate::strutil::usize_to_string(total).as_str());
    r.append("] Action `");
    r.append(title);
    r.append("` -");
    if success {
        r.append(" done");
    } else {
        r.append(" got an error!");
    }
    r.append(" (");
    r.append(elapsed);
    r.append(").");
    r
}

/// The closing line naming the build directory.
pub fn build_path_line(canonical_build_dir: &str) -> (r: String)
    ensures
        r@ == "Build path: "@ + canonical_build_dir@,
{
    let mut r = String::from_str("Build path: ");
    r.append(canonical_build_dir);
    r
}

/// The run-log file name for one (project, pipeline, timestamp): slashes in
/// the project name become dashes so the name stays a single path segment.
pub fn build_log_filename(project_name: &str, pipeline_title: &str, timestamp: &str) -> (r: String)
    ensures
        r@ == crate::strutil::spec_replace(project_name@, "/"@, "-"@) + seq!['-'] + pipeline_title@
            + seq!['-'] + timestamp@ + ".txt"@,
{
    let mut r = crate::strutil::replace_all(project_name, "/", "-");
    r.append("-");
    proof {
        reveal_strlit("-");
    }
    r.append(pipeline_title);
    r.append("-");
    r.append(timestamp);
    r.append(".txt");
    r
}

/// Each of `rels`, joined under `base`.
fn joined_paths(base: &str, rels: &Vec<String>) -> (r: Vec<String>)
    ensures
        r.deep_view() == rels.deep_view().map_values(|p: Seq<char>| spec_path_join(base@, p)),
{
    let mut r: Vec<String> = Vec::new();
    let n = rels.len();
    let mut i: usize = 0;
    while i < n
        invariant
            i <= n,
            n == rels@.len(),
            r.deep_view() =~= rels.deep_view().take(i as int).map_values(
                |p: Seq<char>| spec_path_join(base@, p),
            ),
        decreases n - i,
    {
        let ghost before = r.deep_view();
        r.push(path_join(base, rels[i].as_str()));
        proof {
            let rv = rels.deep_view();
            assert(r.deep_view() =~= before.push(spec_path_join(base@, rv[i as int])));
            assert(rv.take(i + 1) =~= rv.take(i as int).push(rv[i as int]));
            assert(rv.take(i + 1).map_values(|p: Seq<char>| spec_path_join(base@, p)) =~= rv.take(
                i as int,
            ).map_values(|p: Seq<char>| spec_path_join(base@, p)).push(
                spec_path_join(base@, rv[i as int]),
            ));
        }
        i = i + 1;
    }
    proof {
        assert(rels.deep_view().take(n as int) =~= rels.deep_view());
    }
    r
}

} // verus!
