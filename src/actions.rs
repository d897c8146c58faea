//! The actions that a task can carry, and the mapping from a definition to one.
use vstd::prelude::*;

pub mod copy;
pub mod file;
pub mod mkdir;
pub mod mv;
pub mod remove;
pub mod shell;
pub mod traits;

pub use copy::CopyAction;
pub use file::FileAction;
pub use mkdir::MkdirAction;
pub use mv::MoveAction;
pub use remove::RemoveAction;
pub use shell::ShellAction;
pub use traits::{Action, Outcome, Step};

use crate::effect::{views_of, Effect, EffectSpec};
use crate::yaml::ActionDefinition;

verus! {

/// One action of any kind: the closed set of actions a task can carry.
pub enum TaskAction {
    Copy(CopyAction),
    File(FileAction),
    Mkdir(MkdirAction),
    Move(MoveAction),
    Remove(RemoveAction),
    Shell(ShellAction),
}

impl Action for TaskAction {
    open spec fn watched_spec(&self) -> Seq<Seq<char>> {
        match self {
            TaskAction::Copy(a) => a.watched_spec(),
            TaskAction::File(a) => a.watched_spec(),
            TaskAction::Mkdir(a) => a.watched_spec(),
            TaskAction::Move(a) => a.watched_spec(),
            TaskAction::Remove(a) => a.watched_spec(),
            TaskAction::Shell(a) => a.watched_spec(),
        }
    }

    open spec fn condition_spec(&self, present: Seq<bool>) -> bool {
        match self {
            TaskAction::Copy(a) => a.condition_spec(present),
            TaskAction::File(a) => a.condition_spec(present),
            TaskAction::Mkdir(a) => a.condition_spec(present),
            TaskAction::Move(a) => a.condition_spec(present),
            TaskAction::Remove(a) => a.condition_spec(present),
            TaskAction::Shell(a) => a.condition_spec(present),
        }
    }

    open spec fn effect_spec(&self) -> EffectSpec {
        match self {
            TaskAction::Copy(a) => a.effect_spec(),
            TaskAction::File(a) => a.effect_spec(),
            TaskAction::Mkdir(a) => a.effect_spec(),
            TaskAction::Move(a) => a.effect_spec(),
            TaskAction::Remove(a) => a.effect_spec(),
            TaskAction::Shell(a) => a.effect_spec(),
        }
    }

    fn watched(&self) -> (r: Vec<String>) {
        match self {
            TaskAction::Copy(a) => a.watched(),
            TaskAction::File(a) => a.watched(),
            TaskAction::Mkdir(a) => a.watched(),
            TaskAction::Move(a) => a.watched(),
            TaskAction::Remove(a) => a.watched(),
            TaskAction::Shell(a) => a.watched(),
        }
    }

    fn condition(&self, present: &Vec<bool>) -> (r: bool) {
        match self {
            TaskAction::Copy(a) => a.condition(present),
            TaskAction::File(a) => a.condition(present),
            TaskAction::Mkdir(a) => a.condition(present),
            TaskAction::Move(a) => a.condition(present),
            TaskAction::Remove(a) => a.condition(present),
            TaskAction::Shell(a) => a.condition(present),
        }
    }

    fn process(&self) -> (r: Effect) {
        match self {
            TaskAction::Copy(a) => a.process(),
            TaskAction::File(a) => a.process(),
            TaskAction::Mkdir(a) => a.process(),
            TaskAction::Move(a) => a.process(),
            TaskAction::Remove(a) => a.process(),
            TaskAction::Shell(a) => a.process(),
        }
    }
}

/// The effect that a definition asks for.
pub open spec fn definition_effect(def: ActionDefinition) -> EffectSpec {
    match def {
        ActionDefinition::Copy { args } => EffectSpec::CopyFile(args.src@, args.dest@),
        ActionDefinition::File { args } => EffectSpec::CreateDirAll(args.path@),
        ActionDefinition::Mkdir { args } => EffectSpec::CreateDirAll(args.path@),
        ActionDefinition::Move { args } => EffectSpec::Rename(args.src@, args.dest@),
        ActionDefinition::Remove { args } => EffectSpec::RemoveFile(args.path@),
        ActionDefinition::Shell { args } => EffectSpec::RunShell(args.command@),
    }
}

/// The paths whose existence decides a definition's condition.
pub open spec fn definition_watched(def: ActionDefinition) -> Seq<Seq<char>> {
    match def {
        ActionDefinition::Copy { args } => seq![args.dest@],
        ActionDefinition::File { args } => seq![args.path@],
        ActionDefinition::Mkdir { args } => seq![args.path@],
        ActionDefinition::Move { args } => seq![args.src@, args.dest@],
        ActionDefinition::Remove { args } => seq![args.path@],
        ActionDefinition::Shell { args } => Seq::empty(),
    }
}

/// A definition's condition, given whether each watched path exists: a
/// directory or copy destination must be absent, a move source present and
/// its destination absent, a file to remove present; a shell command always
/// runs.
pub open spec fn definition_condition(def: ActionDefinition, present: Seq<bool>) -> bool {
    match def {
        ActionDefinition::Copy { .. } => !present[0],
        ActionDefinition::File { .. } => !present[0],
        ActionDefinition::Mkdir { .. } => !present[0],
        ActionDefinition::Move { .. } => present[0] && !present[1],
        ActionDefinition::Remove { .. } => present[0],
        ActionDefinition::Shell { .. } => true,
    }
}

/// Builds the action of the kind that `action` declares, with its arguments.
pub fn create_action(action: &ActionDefinition) -> (r: TaskAction)
    ensures
        r.watched_spec() == definition_watched(*action),
        r.effect_spec() == definition_effect(*action),
        forall|present: Seq<bool>|
            r.condition_spec(present) == definition_condition(*action, present),
{
    match action {
        ActionDefinition::Copy { args } => TaskAction::Copy(CopyAction::new(args.clone())),
        ActionDefinition::File { args } => TaskAction::File(FileAction::new(args.clone())),
        ActionDefinition::Mkdir { args } => TaskAction::Mkdir(MkdirAction::new(args.clone())),
        ActionDefinition::Move { args } => TaskAction::Move(MoveAction::new(args.clone())),
        ActionDefinition::Remove { args } => TaskAction::Remove(RemoveAction::new(args.clone())),
        ActionDefinition::Shell { args } => TaskAction::Shell(ShellAction::new(args.clone())),
    }
}

} // verus!
