//! The closed set of action kinds a pipeline composes, and the uniform view
//! the dispatcher takes of them: every command-bearing variant exposes its
//! commands as one ordered list, run sequentially and stopped at the first
//! unrecovered failure.

use vstd::prelude::*;

use crate::check::CheckAction;
use crate::command::CustomCommand;
use crate::info::ActionInfo;
use crate::langs::ProgrammingLanguage;
use crate::targets::TargetDescription;

verus! {

/// A build-stage action: commands plus the languages they support. The
/// language list is compatibility metadata consulted at authoring time only.
#[derive(Clone, Debug)]
pub struct BuildAction {
    pub supported_langs: Vec<ProgrammingLanguage>,
    pub commands: Vec<CustomCommand>,
}

pub type PreBuildAction = BuildAction;

pub type PostBuildAction = BuildAction;

pub type TestAction = BuildAction;

/// A pack-stage action: commands plus the target they produce for.
#[derive(Clone, Debug)]
pub struct PackAction {
    pub target: Option<TargetDescription>,
    pub commands: Vec<CustomCommand>,
}

pub type DeliveryAction = PackAction;

pub type InstallAction = PackAction;

/// A deploy-stage action: commands plus toolkit and tag metadata.
#[derive(Clone, Debug)]
pub struct DeployAction {
    pub deploy_toolkit: Option<String>,
    pub tags: Vec<String>,
    pub commands: Vec<CustomCommand>,
}

pub type ConfigureDeployAction = DeployAction;

pub type PostDeployAction = DeployAction;

/// An observation of the running system: one command with inherited stdio.
#[derive(Clone, Debug)]
pub struct ObserveAction {
    pub tags: Vec<String>,
    pub command: CustomCommand,
}

/// Removal of traces from the build directory, then optional commands.
#[derive(Clone, Debug)]
pub struct ProjectCleanAction {
    /// Paths removed from the build directory, relative to it.
    pub to_remove: Vec<String>,
    pub additional_commands: Vec<CustomCommand>,
}

/// One unit of pipeline work.
#[derive(Clone, Debug)]
pub enum Action {
    /// Blocks until the user acknowledges; always succeeds.
    Interrupt,
    /// A single shell command.
    Custom(CustomCommand),
    /// A command whose output is held against regex conditions.
    Check(CheckAction),
    /// Places the declared artifacts mid-pipeline, best-effort.
    ForceArtifactsEnplace,
    PreBuild(PreBuildAction),
    Build(BuildAction),
    PostBuild(PostBuildAction),
    Test(TestAction),
    ProjectClean(ProjectCleanAction),
    Pack(PackAction),
    Deliver(DeliveryAction),
    Install(InstallAction),
    ConfigureDeploy(ConfigureDeployAction),
    Deploy(DeployAction),
    PostDeploy(PostDeployAction),
    Observe(ObserveAction),
}

/// An action with its registry metadata.
#[derive(Clone, Debug)]
pub struct DescribedAction {
    pub title: String,
    pub desc: String,
    pub info: ActionInfo,
    pub tags: Vec<String>,
    pub action: Action,
}

/// The ordered commands an action runs, seen uniformly across the variants.
pub open spec fn spec_action_commands(a: Action) -> Seq<CustomCommand> {
    match a {
        Action::Interrupt => Seq::empty(),
        Action::ForceArtifactsEnplace => Seq::empty(),
        Action::Custom(cmd) => seq![cmd],
        Action::Check(c) => seq![c.command],
        Action::Observe(o) => seq![o.command],
        Action::PreBuild(b) => b.commands@,
        Action::Build(b) => b.commands@,
        Action::PostBuild(b) => b.commands@,
        Action::Test(b) => b.commands@,
        Action::ProjectClean(p) => p.additional_commands@,
        Action::Pack(p) => p.commands@,
        Action::Deliver(p) => p.commands@,
        Action::Install(p) => p.commands@,
        Action::ConfigureDeploy(d) => d.commands@,
        Action::Deploy(d) => d.commands@,
        Action::PostDeploy(d) => d.commands@,
    }
}

/// How many commands the action runs.
pub fn action_command_count(a: &Action) -> (r: usize)
    ensures
        r == spec_action_commands(*a).len(),
{
    match a {
        Action::Interrupt => 0,
        Action::ForceArtifactsEnplace => 0,
        Action::Custom(_) => 1,
        Action::Check(_) => 1,
        Action::Observe(_) => 1,
        Action::PreBuild(b) => b.commands.len(),
        Action::Build(b) => b.commands.len(),
        Action::PostBuild(b) => b.commands.len(),
        Action::Test(b) => b.commands.len(),
        Action::ProjectClean(p) => p.additional_commands.len(),
        Action::Pack(p) => p.commands.len(),
        Action::Deliver(p) => p.commands.len(),
        Action::Install(p) => p.commands.len(),
        Action::ConfigureDeploy(d) => d.commands.len(),
        Action::Deploy(d) => d.commands.len(),
        Action::PostDeploy(d) => d.commands.len(),
    }
}

/// The `i`-th command the action runs.
pub fn action_command_at<'a>(a: &'a Action, i: usize) -> (r: &'a CustomCommand)
    requires
        i < spec_action_commands(*a).len(),
    ensures
        *r == spec_action_commands(*a)[i as int],
{
    match a {
        Action::Interrupt => unreached(),
        Action::ForceArtifactsEnplace => unreached(),
        Action::Custom(cmd) => cmd,
        Action::Check(c) => &c.command,
        Action::Observe(o) => &o.command,
        Action::PreBuild(b) => &b.commands[i],
        Action::Build(b) => &b.commands[i],
        Action::PostBuild(b) => &b.commands[i],
        Action::Test(b) => &b.commands[i],
        Action::ProjectClean(p) => &p.additional_commands[i],
        Action::Pack(p) => &p.commands[i],
        Action::Deliver(p) => &p.commands[i],
        Action::Install(p) => &p.commands[i],
        Action::ConfigureDeploy(d) => &d.commands[i],
        Action::Deploy(d) => &d.commands[i],
        Action::PostDeploy(d) => &d.commands[i],
    }
}

/// Whether the action forces inherited stdio on its command.
pub open spec fn spec_is_observe(a: Action) -> bool {
    a is Observe
}

/// Whether the action's output is judged by regex conditions afterwards.
pub open spec fn spec_is_check(a: Action) -> bool {
    a is Check
}

} // verus!
