use vstd::prelude::*;

use super::traits::Action;
use crate::effect::{views_of, Effect, EffectSpec};

verus! {

/// Arguments of the action that creates a directory, declared with the kind `mkdir`.
pub struct MkdirActionArgs {
    pub path: String,
}

impl Clone for MkdirActionArgs {
    fn clone(&self) -> (r: Self)
        ensures
            r.path@ == self.path@,
    {
        MkdirActionArgs { path: self.path.clone() }
    }
}

/// Creates a directory and its missing ancestors, unless the path exists.
pub struct MkdirAction {
    args: MkdirActionArgs,
}

impl MkdirAction {
    pub closed spec fn path(&self) -> Seq<char> {
        self.args.path@
    }

    pub fn new(args: MkdirActionArgs) -> (r: Self)
        ensures
            r.path() == args.path@,
    {
        Self { args }
    }
}

impl Action for MkdirAction {
    open spec fn watched_spec(&self) -> Seq<Seq<char>> {
        seq![self.path()]
    }

    open spec fn condition_spec(&self, present: Seq<bool>) -> bool {
        !present[0]
    }

    open spec fn effect_spec(&self) -> EffectSpec {
        EffectSpec::CreateDirAll(self.path())
    }

    fn watched(&self) -> (r: Vec<String>) {
        let r = vec![self.args.path.clone()];
        assert(views_of(r@) =~= self.watched_spec());
        r
    }

    fn condition(&self, present: &Vec<bool>) -> (r: bool) {
        !present[0]
    }

    fn process(&self) -> (r: Effect) {
        Effect::CreateDirAll { path: self.args.path.clone() }
    }
}

} // verus!
