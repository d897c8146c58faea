use vstd::prelude::*;

use crate::arg::Args;
use crate::effect::{probe, views_of, Effect, EffectSpec, FsState};
use crate::yaml::TaskDefinition;

verus! {

/// What the runner does with one task after its condition was evaluated.
pub enum Step {
    /// The condition does not hold: nothing to do.
    Skip { note: String },
    /// The condition holds, but this is a dry run: nothing is done.
    DryRun { note: String },
    /// The condition holds: `effect` is to be carried out.
    Execute { note: String, effect: Effect },
}

/// How a task ended.
#[derive(PartialEq, Eq, Structural, Clone, Copy, Debug)]
pub enum Outcome {
    Skipped,
    DryRunReported,
    Executed,
    Failed,
}

pub open spec fn skip_note(name: Seq<char>) -> Seq<char> {
    "Condition not met for task '"@ + name + "', skipping."@
}

pub open spec fn dry_run_note(name: Seq<char>) -> Seq<char> {
    "[DRY-RUN] Condition met for task '"@ + name + "', action would be executed."@
}

pub open spec fn execute_note(name: Seq<char>) -> Seq<char> {
    "Executing task '"@ + name + "'"@
}

pub open spec fn failure_note(name: Seq<char>, err: Seq<char>) -> Seq<char> {
    "Task '"@ + name + "' failed: "@ + err
}

pub open spec fn success_note(name: Seq<char>) -> Seq<char> {
    "Task '"@ + name + "' executed"@
}

impl Step {
    /// The outcome that the step settles, if it settles one without an effect.
    pub open spec fn outcome(self) -> Option<Outcome> {
        match self {
            Step::Skip { .. } => Some(Outcome::Skipped),
            Step::DryRun { .. } => Some(Outcome::DryRunReported),
            Step::Execute { .. } => None,
        }
    }
}

/// The step that the protocol prescribes for a task named `name`, given
/// whether its condition holds, whether this is a dry run and its effect.
pub open spec fn step_for(name: Seq<char>, met: bool, dry_run: bool, effect: EffectSpec, s: Step) -> bool {
    if !met {
        s matches Step::Skip { note } && note@ == skip_note(name)
    } else if dry_run {
        s matches Step::DryRun { note } && note@ == dry_run_note(name)
    } else {
        s matches Step::Execute { note, effect: e } && note@ == execute_note(name) && e@ == effect
    }
}

/// An action: a condition on the current state of the filesystem, and the
/// effect to carry out when it holds.
pub trait Action {
    /// The paths whose existence the condition reads.
    spec fn watched_spec(&self) -> Seq<Seq<char>>;

    /// The condition, given whether each watched path exists.
    spec fn condition_spec(&self, present: Seq<bool>) -> bool;

    /// The effect that `process` asks for.
    spec fn effect_spec(&self) -> EffectSpec;

    fn watched(&self) -> (r: Vec<String>)
        ensures
            views_of(r@) == self.watched_spec(),
    ;

    fn condition(&self, present: &Vec<bool>) -> (r: bool)
        requires
            present@.len() == self.watched_spec().len(),
        ensures
            r == self.condition_spec(present@),
    ;

    fn process(&self) -> (r: Effect)
        ensures
            r@ == self.effect_spec(),
    ;

    /// Decides what to do with `task`, given whether each watched path
    /// exists: skip it, report it (dry run), or carry out the effect.
    fn run(&self, task: &TaskDefinition, args: &Args, present: &Vec<bool>) -> (r: Step)
        requires
            present@.len() == self.watched_spec().len(),
        ensures
            step_for(task.name@, self.condition_spec(present@), args.dry_run, self.effect_spec(), r),
            args.dry_run ==> !(r is Execute),
    {
        if self.condition(present) {
            if args.dry_run {
                let mut note = String::from_str("[DRY-RUN] Condition met for task '");
                note.append(task.name.as_str());
                note.append("', action would be executed.");
                Step::DryRun { note }
            } else {
                let mut note = String::from_str("Executing task '");
                note.append(task.name.as_str());
                note.append("'");
                Step::Execute { note, effect: self.process() }
            }
        } else {
            let mut note = String::from_str("Condition not met for task '");
            note.append(task.name.as_str());
            note.append("', skipping.");
            Step::Skip { note }
        }
    }
}

} // verus!
