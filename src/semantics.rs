//! What running tasks does to the modelled filesystem, and the laws that hold of it.
use vstd::prelude::*;

use crate::actions::traits::{step_for, Step};
use crate::actions::{definition_condition, definition_effect, definition_watched};
use crate::effect::{path_chain, probe, EffectSpec, FsState};
use crate::yaml::ActionDefinition;

verus! {

/// The condition of `def`, evaluated against `fs`.
pub open spec fn condition_in(def: ActionDefinition, fs: FsState) -> bool {
    definition_condition(def, probe(fs, definition_watched(def)))
}

/// The effect that the runner asks for, if any: the definition's effect when
/// its condition holds and this is not a dry run.
pub open spec fn requested_effect(def: ActionDefinition, present: Seq<bool>, dry_run: bool) -> Option<
    EffectSpec,
> {
    if definition_condition(def, present) && !dry_run {
        Some(definition_effect(def))
    } else {
        None
    }
}

/// The state after carrying out `e` on `fs`; an effect that fails leaves the
/// state as it was.
pub open spec fn outcome_of(e: EffectSpec, fs: FsState) -> Option<FsState> {
    if e.succeeds_on(fs) {
        e.applied_to(fs)
    } else {
        Some(fs)
    }
}

/// The state after one task is run on `fs`; `None` once a shell command ran,
/// after which the model no longer knows the state.
pub open spec fn run_on(def: ActionDefinition, dry_run: bool, fs: FsState) -> Option<FsState> {
    match requested_effect(def, probe(fs, definition_watched(def)), dry_run) {
        None => Some(fs),
        Some(e) => outcome_of(e, fs),
    }
}

/// The state after the tasks are run one after the other on `fs`.
pub open spec fn pass_on(defs: Seq<ActionDefinition>, dry_run: bool, fs: FsState) -> Option<
    FsState,
>
    decreases defs.len(),
{
    if defs.len() == 0 {
        Some(fs)
    } else {
        match run_on(defs[0], dry_run, fs) {
            None => None,
            Some(next) => pass_on(defs.drop_first(), dry_run, next),
        }
    }
}

/// The step that the runner hands out for a task asks for exactly the effect
/// that the model carries out, and for none when the model carries out none.
pub proof fn lemma_step_matches_model(
    name: Seq<char>,
    def: ActionDefinition,
    present: Seq<bool>,
    dry_run: bool,
    s: Step,
)
    requires
        step_for(name, definition_condition(def, present), dry_run, definition_effect(def), s),
    ensures
        match requested_effect(def, present, dry_run) {
            None => !(s is Execute),
            Some(e) => s matches Step::Execute { effect, .. } && effect@ == e,
        },
{
}

/// A filesystem action reaches a fixed point: once its effect was carried out,
/// its condition no longer holds, and a second run leaves the state as the
/// first run left it.
pub proof fn lemma_idempotent(def: ActionDefinition, fs: FsState)
    requires
        !(def is Shell),
    ensures
        run_on(def, false, fs) is Some,
        condition_in(def, fs) && definition_effect(def).succeeds_on(fs) ==> !condition_in(
            def,
            run_on(def, false, fs)->0,
        ),
        run_on(def, false, run_on(def, false, fs)->0) == run_on(def, false, fs),
{
    let e = definition_effect(def);
    let once = run_on(def, false, fs)->0;
    if condition_in(def, fs) && e.succeeds_on(fs) {
        match def {
            ActionDefinition::Copy { args } => {
            },
            ActionDefinition::File { args } => {
                assert(path_chain(args.path@).contains(args.path@));
            },
            ActionDefinition::Mkdir { args } => {
                assert(path_chain(args.path@).contains(args.path@));
            },
            ActionDefinition::Move { args } => {
                assert(args.src@ != args.dest@);
            },
            ActionDefinition::Remove { args } => {
            },
            ActionDefinition::Shell { .. } => {},
        }
    }
}

/// A task whose effect fails does not stop the pass: the tasks after it run
/// on the state it left, which is the state before it.
pub proof fn lemma_failure_continues(defs: Seq<ActionDefinition>, fs: FsState)
    requires
        defs.len() > 0,
        requested_effect(defs[0], probe(fs, definition_watched(defs[0])), false) matches Some(e)
            && !e.succeeds_on(fs),
    ensures
        pass_on(defs, false, fs) == pass_on(defs.drop_first(), false, fs),
{
}

/// A dry run leaves the filesystem as it found it, whatever the tasks.
pub proof fn lemma_dry_run_leaves_state(defs: Seq<ActionDefinition>, fs: FsState)
    ensures
        pass_on(defs, true, fs) == Some(fs),
    decreases defs.len(),
{
    if defs.len() > 0 {
        lemma_dry_run_leaves_state(defs.drop_first(), fs);
    }
}

} // verus!
