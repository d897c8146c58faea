//! The task runner: the per-task protocol over the whole task list, in order.
use vstd::prelude::*;

use crate::actions::traits::{failure_note, step_for, success_note};
use crate::actions::{
    create_action, definition_condition, definition_effect, definition_watched, Action, Outcome,
    Step,
};
use crate::arg::Args;
use crate::effect::views_of;
use crate::yaml::{TaskDefinition, Yaml};

verus! {

/// Runs the tasks of a definition one at a time, in declaration order.
///
/// The driver asks `watched` for the paths to test, hands their existence to
/// `check`, and, when `check` returns `Step::Execute`, carries out the effect
/// and reports how it went to `finish`. The outcome of each task is recorded
/// at its own index.
pub struct TaskRunner {
    tasks: Vec<TaskDefinition>,
    args: Args,
    outcomes: Vec<Outcome>,
    pending: bool,
}

impl TaskRunner {
    pub closed spec fn tasks(&self) -> Seq<TaskDefinition> {
        self.tasks@
    }

    pub closed spec fn dry_run(&self) -> bool {
        self.args.dry_run
    }

    /// The outcomes of the tasks handled so far; the next task is the one at
    /// index `outcomes().len()`.
    pub closed spec fn outcomes(&self) -> Seq<Outcome> {
        self.outcomes@
    }

    /// The effect of the next task was handed out and its result is awaited.
    pub closed spec fn pending(&self) -> bool {
        self.pending
    }

    pub open spec fn wf(&self) -> bool {
        &&& self.outcomes().len() <= self.tasks().len()
        &&& self.pending() ==> self.outcomes().len() < self.tasks().len()
    }

    pub open spec fn done(&self) -> bool {
        self.outcomes().len() == self.tasks().len()
    }

    /// The next task to handle.
    pub open spec fn current(&self) -> TaskDefinition {
        self.tasks()[self.outcomes().len() as int]
    }

    pub fn new(yaml: Yaml, args: Args) -> (r: Self)
        ensures
            r.wf(),
            r.tasks() == yaml.tasks@,
            r.dry_run() == args.dry_run,
            r.outcomes() == Seq::<Outcome>::empty(),
            !r.pending(),
    {
        TaskRunner { tasks: yaml.tasks, args, outcomes: Vec::new(), pending: false }
    }

    pub fn is_done(&self) -> (r: bool)
        requires
            self.wf(),
        ensures
            r == self.done(),
    {
        self.outcomes.len() == self.tasks.len()
    }

    pub fn outcome_list(&self) -> (r: &Vec<Outcome>)
        ensures
            r@ == self.outcomes(),
    {
        &self.outcomes
    }

    /// The name of the next task.
    pub fn current_name(&self) -> (r: &String)
        requires
            self.wf(),
            !self.done(),
        ensures
            r@ == self.current().name@,
    {
        &self.tasks[self.outcomes.len()].name
    }

    /// The paths whose existence the next task's condition reads.
    pub fn watched(&self) -> (r: Vec<String>)
        requires
            self.wf(),
            !self.done(),
            !self.pending(),
        ensures
            views_of(r@) == definition_watched(self.current().action),
    {
        create_action(&self.tasks[self.outcomes.len()].action).watched()
    }

    /// Applies the protocol to the next task, given whether each of its
    /// watched paths exists. A skipped or dry-run task is settled at once; an
    /// executed one waits for `finish`.
    pub fn check(&mut self, present: &Vec<bool>) -> (r: Step)
        requires
            old(self).wf(),
            !old(self).done(),
            !old(self).pending(),
            present@.len() == definition_watched(old(self).current().action).len(),
        ensures
            final(self).wf(),
            final(self).tasks() == old(self).tasks(),
            final(self).dry_run() == old(self).dry_run(),
            step_for(
                old(self).current().name@,
                definition_condition(old(self).current().action, present@),
                old(self).dry_run(),
                definition_effect(old(self).current().action),
                r,
            ),
            old(self).dry_run() ==> !(r is Execute),
            r is Execute ==> final(self).pending() && final(self).outcomes() == old(self).outcomes(),
            !(r is Execute) ==> !final(self).pending() && final(self).outcomes() == old(
                self,
            ).outcomes().push(r.outcome()->0),
    {
        let i = self.outcomes.len();
        let action = create_action(&self.tasks[i].action);
        let step = action.run(&self.tasks[i], &self.args, present);
        match step {
            Step::Skip { .. } => {
                self.outcomes.push(Outcome::Skipped);
            },
            Step::DryRun { .. } => {
                self.outcomes.push(Outcome::DryRunReported);
            },
            Step::Execute { .. } => {
                self.pending = true;
            },
        }
        step
    }

    /// Records how the pending effect went and moves on to the next task,
    /// whether it succeeded or failed. Returns the line to log.
    pub fn finish(&mut self, result: Result<(), String>) -> (r: String)
        requires
            old(self).wf(),
            old(self).pending(),
        ensures
            final(self).wf(),
            !final(self).pending(),
            final(self).tasks() == old(self).tasks(),
            final(self).dry_run() == old(self).dry_run(),
            match result {
                Ok(()) => final(self).outcomes() == old(self).outcomes().push(Outcome::Executed)
                    && r@ == success_note(old(self).current().name@),
                Err(e) => final(self).outcomes() == old(self).outcomes().push(Outcome::Failed)
                    && r@ == failure_note(old(self).current().name@, e@),
            },
    {
        let i = self.outcomes.len();
        let mut note = String::from_str("Task '");
        note.append(self.tasks[i].name.as_str());
        match result {
            Ok(()) => {
                note.append("' executed");
                self.outcomes.push(Outcome::Executed);
            },
            Err(e) => {
                note.append("' failed: ");
                note.append(e.as_str());
                self.outcomes.push(Outcome::Failed);
            },
        }
        self.pending = false;
        note
    }
}

} // verus!
