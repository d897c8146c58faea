//! The earlier, two-kind form of actions: a directory to create or a file to
//! copy, each guarded by the absence of its target.
use vstd::prelude::*;

use crate::actions::traits::{dry_run_note, execute_note, Step};
use crate::arg::Args;
use crate::effect::{Effect, EffectSpec};
use crate::yaml::{ActionDefinition, TaskDefinition};

verus! {

pub open spec fn skip_action_note(name: Seq<char>) -> Seq<char> {
    "Condition not met for task '"@ + name + "', skipping action."@
}

/// A strategy: the path whose absence guards it, and the effect it carries out.
pub trait Strategy {
    /// The path that must be absent for the strategy to run.
    spec fn target_spec(&self) -> Seq<char>;

    spec fn action_spec(&self) -> EffectSpec;

    fn target(&self) -> (r: String)
        ensures
            r@ == self.target_spec(),
    ;

    /// Whether the guard holds, given whether the target exists.
    fn condition(&self, target_exists: bool) -> (r: bool)
        ensures
            r == !target_exists,
    {
        !target_exists
    }

    fn action(&self) -> (r: Effect)
        ensures
            r@ == self.action_spec(),
    ;

    /// Decides what to do with `task`, given whether the target exists.
    fn run(&self, task: &TaskDefinition, args: &Args, target_exists: bool) -> (r: Step)
        ensures
            !target_exists && args.dry_run ==> (r matches Step::DryRun { note } && note@
                == dry_run_note(task.name@)),
            !target_exists && !args.dry_run ==> (r matches Step::Execute { note, effect } && note@
                == execute_note(task.name@) && effect@ == self.action_spec()),
            target_exists ==> (r matches Step::Skip { note } && note@ == skip_action_note(
                task.name@,
            )),
    {
        if self.condition(target_exists) {
            if args.dry_run {
                let mut note = String::from_str("[DRY-RUN] Condition met for task '");
                note.append(task.name.as_str());
                note.append("', action would be executed.");
                Step::DryRun { note }
            } else {
                let mut note = String::from_str("Executing task '");
                note.append(task.name.as_str());
                note.append("'");
                Step::Execute { note, effect: self.action() }
            }
        } else {
            let mut note = String::from_str("Condition not met for task '");
            note.append(task.name.as_str());
            note.append("', skipping action.");
            Step::Skip { note }
        }
    }
}

/// Creates a directory unless its path exists.
pub struct FileStrategy {
    pub path: String,
}

impl Strategy for FileStrategy {
    open spec fn target_spec(&self) -> Seq<char> {
        self.path@
    }

    open spec fn action_spec(&self) -> EffectSpec {
        EffectSpec::CreateDirAll(self.path@)
    }

    fn target(&self) -> (r: String) {
        self.path.clone()
    }

    fn action(&self) -> (r: Effect) {
        Effect::CreateDirAll { path: self.path.clone() }
    }
}

/// Copies `src` to `dest` unless `dest` exists.
pub struct CopyStrategy {
    pub src: String,
    pub dest: String,
}

impl Strategy for CopyStrategy {
    open spec fn target_spec(&self) -> Seq<char> {
        self.dest@
    }

    open spec fn action_spec(&self) -> EffectSpec {
        EffectSpec::CopyFile(self.src@, self.dest@)
    }

    fn target(&self) -> (r: String) {
        self.dest.clone()
    }

    fn action(&self) -> (r: Effect) {
        Effect::CopyFile { src: self.src.clone(), dest: self.dest.clone() }
    }
}

/// A strategy of either kind.
pub enum AnyStrategy {
    File(FileStrategy),
    Copy(CopyStrategy),
}

impl Strategy for AnyStrategy {
    open spec fn target_spec(&self) -> Seq<char> {
        match self {
            AnyStrategy::File(s) => s.target_spec(),
            AnyStrategy::Copy(s) => s.target_spec(),
        }
    }

    open spec fn action_spec(&self) -> EffectSpec {
        match self {
            AnyStrategy::File(s) => s.action_spec(),
            AnyStrategy::Copy(s) => s.action_spec(),
        }
    }

    fn target(&self) -> (r: String) {
        match self {
            AnyStrategy::File(s) => s.target(),
            AnyStrategy::Copy(s) => s.target(),
        }
    }

    fn action(&self) -> (r: Effect) {
        match self {
            AnyStrategy::File(s) => s.action(),
            AnyStrategy::Copy(s) => s.action(),
        }
    }
}

/// The strategy for a task: a directory task (`file` or `mkdir`) or a copy
/// task has one; the other kinds have none.
pub fn create_strategy(task: &TaskDefinition) -> (r: Option<AnyStrategy>)
    ensures
        match task.action {
            ActionDefinition::File { args } => r matches Some(s) && s.target_spec() == args.path@
                && s.action_spec() == EffectSpec::CreateDirAll(args.path@),
            ActionDefinition::Mkdir { args } => r matches Some(s) && s.target_spec() == args.path@
                && s.action_spec() == EffectSpec::CreateDirAll(args.path@),
            ActionDefinition::Copy { args } => r matches Some(s) && s.target_spec() == args.dest@
                && s.action_spec() == EffectSpec::CopyFile(args.src@, args.dest@),
            _ => r is None,
        },
{
    match &task.action {
        ActionDefinition::File { args } => Some(
            AnyStrategy::File(FileStrategy { path: args.path.clone() }),
        ),
        ActionDefinition::Mkdir { args } => Some(
            AnyStrategy::File(FileStrategy { path: args.path.clone() }),
        ),
        ActionDefinition::Copy { args } => Some(
            AnyStrategy::Copy(CopyStrategy { src: args.src.clone(), dest: args.dest.clone() }),
        ),
        _ => None,
    }
}

} // verus!
