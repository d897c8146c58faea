use vstd::prelude::*;

use super::traits::Action;
use crate::effect::{views_of, Effect, EffectSpec};

verus! {

/// Arguments of the action that removes a file.
pub struct RemoveActionArgs {
    pub path: String,
}

impl Clone for RemoveActionArgs {
    fn clone(&self) -> (r: Self)
        ensures
            r.path@ == self.path@,
    {
        RemoveActionArgs { path: self.path.clone() }
    }
}

/// Removes a file, if the path exists.
pub struct RemoveAction {
    args: RemoveActionArgs,
}

impl RemoveAction {
    pub closed spec fn path(&self) -> Seq<char> {
        self.args.path@
    }

    pub fn new(args: RemoveActionArgs) -> (r: Self)
        ensures
            r.path() == args.path@,
    {
        Self { args }
    }
}

impl Action for RemoveAction {
    open spec fn watched_spec(&self) -> Seq<Seq<char>> {
        seq![self.path()]
    }

    open spec fn condition_spec(&self, present: Seq<bool>) -> bool {
        present[0]
    }

    open spec fn effect_spec(&self) -> EffectSpec {
        EffectSpec::RemoveFile(self.path())
    }

    fn watched(&self) -> (r: Vec<String>) {
        let r = vec![self.args.path.clone()];
        assert(views_of(r@) =~= self.watched_spec());
        r
    }

    fn condition(&self, present: &Vec<bool>) -> (r: bool) {
        present[0]
    }

    fn process(&self) -> (r: Effect) {
        Effect::RemoveFile { path: self.args.path.clone() }
    }
}

} // verus!
