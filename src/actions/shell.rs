use vstd::prelude::*;

use super::traits::Action;
use crate::effect::{views_of, Effect, EffectSpec};

verus! {

/// Arguments of the action that runs a shell command.
pub struct ShellActionArgs {
    pub command: String,
}

impl Clone for ShellActionArgs {
    fn clone(&self) -> (r: Self)
        ensures
            r.command@ == self.command@,
    {
        ShellActionArgs { command: self.command.clone() }
    }
}

/// Runs a command through the shell, on every run: it has no guard.
pub struct ShellAction {
    args: ShellActionArgs,
}

impl ShellAction {
    pub closed spec fn command(&self) -> Seq<char> {
        self.args.command@
    }

    pub fn new(args: ShellActionArgs) -> (r: Self)
        ensures
            r.command() == args.command@,
    {
        Self { args }
    }
}

impl Action for ShellAction {
    open spec fn watched_spec(&self) -> Seq<Seq<char>> {
        Seq::empty()
    }

    open spec fn condition_spec(&self, present: Seq<bool>) -> bool {
        true
    }

    open spec fn effect_spec(&self) -> EffectSpec {
        EffectSpec::RunShell(self.command())
    }

    fn watched(&self) -> (r: Vec<String>) {
        let r = Vec::new();
        assert(views_of(r@) =~= self.watched_spec());
        r
    }

    fn condition(&self, present: &Vec<bool>) -> (r: bool) {
        true
    }

    fn process(&self) -> (r: Effect) {
        Effect::RunShell { command: self.args.command.clone() }
    }
}

} // verus!
